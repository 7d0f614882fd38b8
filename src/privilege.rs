use vstd::prelude::*;
use vstd::string::*;

verus! {

/// The helper that runs a command as the superuser.
#[derive(Clone, Copy, Debug, PartialEq, Eq, Structural)]
pub enum Privilege {
    Sudo,
    Doas,
    Run0,
}

/// The name under which each helper is invoked.
pub open spec fn privilege_name(p: Privilege) -> Seq<char> {
    match p {
        Privilege::Sudo => "sudo"@,
        Privilege::Doas => "doas"@,
        Privilege::Run0 => "run0"@,
    }
}

/// The flag that asks a helper to check the credentials alone, where it has one.
pub open spec fn privilege_validate_flag(p: Privilege) -> Option<Seq<char>> {
    match p {
        Privilege::Sudo => Some("--validate"@),
        _ => None,
    }
}

/// Each helper has its own name.
pub proof fn privilege_names_are_distinct(p: Privilege, q: Privilege)
    ensures
        privilege_name(p) == privilege_name(q) ==> p == q,
{
    reveal_strlit("sudo");
    reveal_strlit("doas");
    reveal_strlit("run0");
    assert("sudo"@[0] == 's');
    assert("doas"@[0] == 'd');
    assert("run0"@[0] == 'r');
}

impl Default for Privilege {
    fn default() -> (r: Privilege)
        ensures
            r == Privilege::Sudo,
    {
        Privilege::Sudo
    }
}

impl Privilege {
    /// The helper's command name.
    pub fn name(&self) -> (r: String)
        ensures
            r@ == privilege_name(*self),
    {
        match self {
            Privilege::Sudo => String::from_str("sudo"),
            Privilege::Doas => String::from_str("doas"),
            Privilege::Run0 => String::from_str("run0"),
        }
    }

    /// The flag that validates credentials before an elevated run, if the helper has one.
    pub fn validate_flag(&self) -> (r: Option<String>)
        ensures
            r matches Some(f) ==> privilege_validate_flag(*self) == Some(f@),
            r is None ==> privilege_validate_flag(*self) is None,
    {
        match self {
            Privilege::Sudo => Some(String::from_str("--validate")),
            _ => None,
        }
    }

    /// The helper whose command name is `s`, if any.
    pub fn from_name(s: &str) -> (r: Option<Privilege>)
        ensures
            r matches Some(p) ==> privilege_name(p) == s@,
            r is None ==> forall|p: Privilege| privilege_name(p) != s@,
    {
        proof {
            reveal_strlit("sudo");
            reveal_strlit("doas");
            reveal_strlit("run0");
        }
        if crate::text::str_eq(s, "sudo") {
            Some(Privilege::Sudo)
        } else if crate::text::str_eq(s, "doas") {
            Some(Privilege::Doas)
        } else if crate::text::str_eq(s, "run0") {
            Some(Privilege::Run0)
        } else {
            proof {
                assert forall|p: Privilege| privilege_name(p) != s@ by {
                    match p {
                        Privilege::Sudo => {},
                        Privilege::Doas => {},
                        Privilege::Run0 => {},
                    }
                }
            }
            None
        }
    }
}

} // verus!
