use vstd::prelude::*;
use vstd::string::{StrSliceExecFns, StringExecFns};

use crate::error::AppError;

verus! {

/// Shortest accepted user name, in characters.
pub const MIN_NAME_LEN: usize = 2;

/// Longest accepted user name, in characters.
pub const MAX_NAME_LEN: usize = 9;

pub open spec fn is_ascii_letter(c: char) -> bool {
    ('a' <= c && c <= 'z') || ('A' <= c && c <= 'Z')
}

pub open spec fn all_ascii_letters(s: Seq<char>) -> bool {
    forall|i: int| 0 <= i < s.len() ==> is_ascii_letter(#[trigger] s[i])
}

pub open spec fn name_len_ok(s: Seq<char>) -> bool {
    MIN_NAME_LEN <= s.len() <= MAX_NAME_LEN
}

/// A user name is made of ASCII letters only and is 2 to 9 characters long.
pub open spec fn valid_name(s: Seq<char>) -> bool {
    all_ascii_letters(s) && name_len_ok(s)
}

pub open spec fn letters_only_message() -> Seq<char> {
    "user name must consist of ASCII letters only"@
}

pub open spec fn length_message() -> Seq<char> {
    "user name must be 2 to 9 characters long"@
}

/// A validated user name.
#[derive(Debug)]
pub struct UserName {
    value: String,
}

impl Clone for UserName {
    fn clone(&self) -> (r: UserName)
        ensures
            r@ == self@,
    {
        proof {
            use_type_invariant(self);
        }
        UserName { value: self.value.clone() }
    }
}

impl View for UserName {
    type V = Seq<char>;

    closed spec fn view(&self) -> Seq<char> {
        self.value@
    }
}

impl UserName {
    #[verifier::type_invariant]
    spec fn inv(self) -> bool {
        valid_name(self.value@)
    }

    /// The validated text of the name.
    pub fn as_str(&self) -> (r: &str)
        ensures
            r@ == self@,
            valid_name(r@),
    {
        proof {
            use_type_invariant(self);
        }
        self.value.as_str()
    }

    /// The name as an owned string.
    pub fn to_text(&self) -> (r: String)
        ensures
            r@ == self@,
    {
        self.value.clone()
    }

    /// Validates `name`: the letters rule is checked first, then the length
    /// rule; each failure is an `InvalidArgument` naming the broken rule.
    pub fn new(name: String) -> (r: Result<UserName, AppError>)
        ensures
            r is Ok <==> valid_name(name@),
            r is Ok ==> r->Ok_0@ == name@,
            r is Err ==> r->Err_0 is InvalidArgument,
            !all_ascii_letters(name@) ==> r is Err && r->Err_0.spec_message()
                == letters_only_message(),
            all_ascii_letters(name@) && !name_len_ok(name@) ==> r is Err
                && r->Err_0.spec_message() == length_message(),
    {
        let n = name.as_str().unicode_len();
        let mut i: usize = 0;
        while i < n
            invariant
                n == name@.len(),
                i <= n,
                forall|j: int| 0 <= j < i ==> is_ascii_letter(#[trigger] name@[j]),
            decreases n - i,
        {
            let c = name.as_str().get_char(i);
            if !(('a' <= c && c <= 'z') || ('A' <= c && c <= 'Z')) {
                return Err(AppError::InvalidArgument(
                    String::from_str("user name must consist of ASCII letters only"),
                ));
            }
            i = i + 1;
        }
        if n < MIN_NAME_LEN || n > MAX_NAME_LEN {
            return Err(AppError::InvalidArgument(
                String::from_str("user name must be 2 to 9 characters long"),
            ));
        }
        Ok(UserName { value: name })
    }
}

} // verus!
