//! The kinds of clients of the service.
use vstd::prelude::*;

verus! {

/// What a client is: a user or an application.
#[allow(non_camel_case_types)]
#[derive(Debug, PartialEq, Eq, Structural, Clone, Copy)]
pub enum Kind {
    USER,
    APP,
}

/// The number under which each kind is stored.
pub open spec fn kind_number(k: Kind) -> i32 {
    match k {
        Kind::USER => 0,
        Kind::APP => 1,
    }
}

/// The name of each kind.
pub open spec fn kind_name(k: Kind) -> Seq<char> {
    match k {
        Kind::USER => seq!['U', 'S', 'E', 'R'],
        Kind::APP => seq!['A', 'P', 'P'],
    }
}

impl Kind {
    pub fn to_int32(&self) -> (r: i32)
        ensures
            r == kind_number(*self),
    {
        match self {
            Kind::USER => 0,
            Kind::APP => 1,
        }
    }

    /// The kind's name.
    pub fn to_string(&self) -> (r: String)
        ensures
            r@ == kind_name(*self),
    {
        proof {
            reveal_strlit("USER");
            reveal_strlit("APP");
        }
        match self {
            Kind::USER => "USER".to_owned(),
            Kind::APP => "APP".to_owned(),
        }
    }
}

} // verus!
