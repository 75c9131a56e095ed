use vstd::prelude::*;
use crate::encoding::{bytes_list, copy_bytes, copy_bytes_list, encode_c_bytes, encoded};
use crate::error::AdapterError;
use crate::event::{outcome_view, CallView, ForeignCall};

verus! {

/// A joined match: its identifier, the participants as the engine listed
/// them, and the participant count as the engine gave it.
#[derive(Debug, Clone, PartialEq, Eq)]
pub struct NakamaMatch {
    pub match_id: Vec<u8>,
    pub presences: Vec<Vec<u8>>,
    pub presences_count: u16,
}

/// The mathematical value of a `NakamaMatch`.
pub struct MatchView {
    pub match_id: Seq<u8>,
    pub presences: Seq<Seq<u8>>,
    pub presences_count: u16,
}

impl View for NakamaMatch {
    type V = MatchView;

    open spec fn view(&self) -> MatchView {
        MatchView {
            match_id: self.match_id@,
            presences: bytes_list(self.presences@),
            presences_count: self.presences_count,
        }
    }
}

/// The request that sends `payload` under `opcode` to everyone in the match
/// `joined`, or `InvalidParameter` where the match identifier cannot be
/// null-terminated.
pub open spec fn send_request(joined: MatchView, opcode: i64, payload: Seq<u8>) -> Result<
    CallView,
    AdapterError,
> {
    match encoded(joined.match_id) {
        Ok(id) => Ok(
            CallView::SendMatchData {
                match_id: id,
                opcode: opcode,
                payload: payload,
                presences: Seq::empty(),
            },
        ),
        Err(e) => Err(e),
    }
}

impl NakamaMatch {
    /// An owned copy of this descriptor.
    pub fn duplicate(&self) -> (r: NakamaMatch)
        ensures
            r@ == self@,
    {
        NakamaMatch {
            match_id: copy_bytes(self.match_id.as_slice()),
            presences: copy_bytes_list(&self.presences),
            presences_count: self.presences_count,
        }
    }

    /// Builds the request that sends `data`, tagged with `opcode`, to all
    /// current participants of this match. The payload moves into the request
    /// untouched; the match identifier is encoded anew on every call.
    pub fn send_data(&mut self, opcode: i64, data: Vec<u8>) -> (r: Result<ForeignCall, AdapterError>)
        ensures
            *final(self) == *old(self),
            outcome_view(r) == send_request(old(self)@, opcode, data@),
    {
        match encode_c_bytes(self.match_id.as_slice()) {
            Ok(id) => {
                let call = ForeignCall::SendMatchData {
                    match_id: id,
                    opcode: opcode,
                    payload: data,
                    presences: Vec::new(),
                };
                proof {
                    assert(call@->SendMatchData_presences =~= Seq::<Seq<u8>>::empty());
                }
                Ok(call)
            },
            Err(e) => Err(e),
        }
    }
}

} // verus!
