//! The messages of the protocol that receives converted assets.

use vstd::prelude::*;

verus! {

/// What the protocol can be asked to do.
#[derive(Clone, Copy, Debug, PartialEq, Eq, Structural)]
pub enum ExecuteMsg {
    /// Deposit the attached coins.
    Deposit {  },
}

/// `{"deposit":{}}`
pub open spec fn deposit_json() -> Seq<u8> {
    seq![123u8, 34, 100, 101, 112, 111, 115, 105, 116, 34, 58, 123, 125, 125]
}

impl ExecuteMsg {
    /// The message's JSON text.
    pub open spec fn json(self) -> Seq<u8> {
        match self {
            ExecuteMsg::Deposit {  } => deposit_json(),
        }
    }

    /// The message as JSON text.
    pub fn to_json(&self) -> (r: Vec<u8>)
        ensures
            r@ == self.json(),
    {
        match self {
            ExecuteMsg::Deposit {  } => {
                let r: Vec<u8> = vec![
                    123u8, 34, 100, 101, 112, 111, 115, 105, 116, 34, 58, 123, 125, 125,
                ];
                assert(r@ =~= deposit_json());
                r
            },
        }
    }
}

} // verus!
