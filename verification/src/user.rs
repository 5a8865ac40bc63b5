//! A validated customer identity: name, email and address are checked
//! before construction and before every update, so a failed update leaves
//! the prior valid value intact.

use crate::numfmt::dec_str;
use crate::numfmt::u64_to_string;
use crate::text::lower_of;
use crate::text::lower_str;
use crate::text::trim_of;
use crate::text::trim_str;
use vstd::prelude::*;
use vstd::string::StrSliceExecFns;

verus! {

#[derive(Debug, Clone)]
pub struct User {
    pub id: u32,
    pub name: String,
    pub email: String,
    pub address: String,
}

#[derive(Debug, PartialEq, Eq, Structural)]
pub enum UserError {
    InvalidEmail,
    EmptyName,
    EmptyAddress,
}

/// The number of '@' characters in `s`.
pub open spec fn at_count(s: Seq<char>) -> int
    decreases s.len(),
{
    if s.len() == 0 {
        0
    } else {
        at_count(s.drop_last()) + if s.last() == '@' {
            1int
        } else {
            0int
        }
    }
}

/// A well-formed email: exactly one '@', not at either end, so both the
/// local part and the domain are non-empty.
pub open spec fn email_ok(s: Seq<char>) -> bool {
    &&& s.len() > 0
    &&& at_count(s) == 1
    &&& s[0] != '@'
    &&& s[s.len() - 1] != '@'
}

/// The stored form of an accepted email: the lowercasing of some
/// well-formed email.
pub open spec fn lowered_valid_email(e: Seq<char>) -> bool {
    exists|x: Seq<char>| email_ok(x) && e == #[trigger] lower_of(x)
}

/// The message text for each validation error.
pub open spec fn user_error_text(e: UserError) -> Seq<char> {
    match e {
        UserError::InvalidEmail => "Invalid email format"@,
        UserError::EmptyName => "Name cannot be empty"@,
        UserError::EmptyAddress => "Address cannot be empty"@,
    }
}

impl UserError {
    /// A human-readable description of the error.
    pub fn message(&self) -> (r: &'static str)
        ensures
            r@ == user_error_text(*self),
    {
        match self {
            UserError::InvalidEmail => "Invalid email format",
            UserError::EmptyName => "Name cannot be empty",
            UserError::EmptyAddress => "Address cannot be empty",
        }
    }
}

fn count_at_signs(s: &str) -> (n: usize)
    ensures
        n == at_count(s@),
{
    let len: usize = s.unicode_len();
    let mut n: usize = 0;
    let mut i: usize = 0;
    while i < len
        invariant
            i <= len,
            len == s@.len(),
            n <= i,
            n == at_count(s@.subrange(0, i as int)),
        decreases len - i,
    {
        let c: char = s.get_char(i);
        if c == '@' {
            n = n + 1;
        }
        i = i + 1;
        proof {
            assert(s@.subrange(0, i as int).drop_last() =~= s@.subrange(0, i - 1));
            assert(s@.subrange(0, i as int).last() == c);
        }
    }
    proof {
        assert(s@.subrange(0, len as int) =~= s@);
    }
    n
}

impl User {
    /// Name and address non-empty and the email in the stored form of an
    /// accepted one: holds of every user the checked constructor and the
    /// update operations produce.
    pub open spec fn wf(self) -> bool {
        &&& self.name@.len() > 0
        &&& self.address@.len() > 0
        &&& lowered_valid_email(self.email@)
    }

    /// The one-line rendering of this user.
    pub open spec fn summary_line(self) -> Seq<char> {
        "User "@ + self.name@ + " (ID: "@ + dec_str(self.id as nat) + ") - Email: "@ + self.email@
            + ", Address: "@ + self.address@
    }

    /// Whether `email`, once trimmed, is a well-formed address: it contains
    /// exactly one '@', not at either end.
    pub fn is_valid_email(email: &str) -> (r: bool)
        ensures
            r == email_ok(trim_of(email@)),
    {
        let t: &str = trim_str(email);
        let len: usize = t.unicode_len();
        if len == 0 {
            return false;
        }
        let first: char = t.get_char(0);
        let last: char = t.get_char(len - 1);
        let cnt: usize = count_at_signs(t);
        cnt == 1 && first != '@' && last != '@'
    }

    /// Creates a user after validating every field: the name and address
    /// must not trim to empty and the email must be well-formed. On success
    /// the name and address are stored trimmed and the email trimmed and
    /// lowercased.
    pub fn new(id: u32, name: String, email: String, address: String) -> (r: Result<
        User,
        UserError,
    >)
        ensures
            r is Ok <==> (trim_of(name@).len() > 0 && trim_of(address@).len() > 0 && email_ok(
                trim_of(email@),
            )),
            r == Result::<User, UserError>::Err(UserError::EmptyName) <==> trim_of(name@).len()
                == 0,
            r == Result::<User, UserError>::Err(UserError::EmptyAddress) <==> (trim_of(
                name@,
            ).len() > 0 && trim_of(address@).len() == 0),
            r == Result::<User, UserError>::Err(UserError::InvalidEmail) <==> (trim_of(
                name@,
            ).len() > 0 && trim_of(address@).len() > 0 && !email_ok(trim_of(email@))),
            r matches Ok(u) ==> u.id == id && u.name@ == trim_of(name@) && u.email@ == lower_of(
                trim_of(email@),
            ) && u.address@ == trim_of(address@) && u.wf(),
    {
        let tname: &str = trim_str(name.as_str());
        if tname.unicode_len() == 0 {
            return Err(UserError::EmptyName);
        }
        let taddr: &str = trim_str(address.as_str());
        if taddr.unicode_len() == 0 {
            return Err(UserError::EmptyAddress);
        }
        if !Self::is_valid_email(email.as_str()) {
            return Err(UserError::InvalidEmail);
        }
        let temail: &str = trim_str(email.as_str());
        let lowered: String = lower_str(temail);
        proof {
            assert(email_ok(trim_of(email@)) && lowered@ == lower_of(trim_of(email@)));
        }
        Ok(User { id, name: tname.to_owned(), email: lowered, address: taddr.to_owned() })
    }

    /// Creates a user without validation; only the email is normalised to
    /// lowercase.
    pub fn new_unchecked(id: u32, name: String, email: String, address: String) -> (r: User)
        ensures
            r.id == id,
            r.name == name,
            r.email@ == lower_of(email@),
            r.address == address,
    {
        let lowered: String = lower_str(email.as_str());
        User { id, name, email: lowered, address }
    }

    /// Replaces the address unless the new one trims to empty; on failure
    /// the stored address is unchanged.
    pub fn update_address(&mut self, new_address: String) -> (r: Result<(), UserError>)
        ensures
            r is Ok <==> trim_of(new_address@).len() > 0,
            r is Err ==> r == Result::<(), UserError>::Err(UserError::EmptyAddress) && *final(self)
                == *old(self),
            r is Ok ==> final(self).address@ == trim_of(new_address@) && final(self).id == old(
                self,
            ).id && final(self).name == old(self).name && final(self).email == old(self).email,
            old(self).wf() ==> final(self).wf(),
    {
        let t: &str = trim_str(new_address.as_str());
        if t.unicode_len() == 0 {
            return Err(UserError::EmptyAddress);
        }
        self.address = t.to_owned();
        Ok(())
    }

    /// Replaces the email unless the new one is not well-formed; on failure
    /// the stored email is unchanged. The new email is stored trimmed and
    /// lowercased.
    pub fn update_email(&mut self, new_email: String) -> (r: Result<(), UserError>)
        ensures
            r is Ok <==> email_ok(trim_of(new_email@)),
            r is Err ==> r == Result::<(), UserError>::Err(UserError::InvalidEmail) && *final(self)
                == *old(self),
            r is Ok ==> final(self).email@ == lower_of(trim_of(new_email@)) && final(self).id
                == old(self).id && final(self).name == old(self).name && final(self).address == old(
                self,
            ).address,
            old(self).wf() ==> final(self).wf(),
    {
        if !Self::is_valid_email(new_email.as_str()) {
            return Err(UserError::InvalidEmail);
        }
        let t: &str = trim_str(new_email.as_str());
        let lowered: String = lower_str(t);
        proof {
            assert(email_ok(trim_of(new_email@)) && lowered@ == lower_of(trim_of(new_email@)));
        }
        self.email = lowered;
        Ok(())
    }

    /// Renders the user as one line of text.
    pub fn to_string(&self) -> (r: String)
        ensures
            r@ == self.summary_line(),
    {
        let mut s: String = String::new();
        s.append("User ");
        s.append(self.name.as_str());
        s.append(" (ID: ");
        let rendered_id: String = u64_to_string(self.id as u64);
        s.append(rendered_id.as_str());
        s.append(") - Email: ");
        s.append(self.email.as_str());
        s.append(", Address: ");
        s.append(self.address.as_str());
        proof {
            assert(s@ =~= self.summary_line());
        }
        s
    }
}

} // verus!
