//! Decisions of the application loop on received radio payloads.
//!
//! The radio link itself belongs to an external driver; what reaches this
//! core is the received payload as plain bytes. The one recognised command
//! toggles the strip; anything else is malformed control input, the
//! unrecoverable fault of this firmware.

use vstd::prelude::*;

verus! {

/// The bytes of the one recognised command, the text `Ping!`.
pub open spec fn ping_payload() -> Seq<u8> {
    seq![80u8, 105u8, 110u8, 103u8, 33u8]
}

/// Decide on a received payload: the recognised command toggles the strip;
/// any other payload is an unrecoverable fault (`None`), on which the
/// caller must record the fault marker and enter the trap.
pub fn handle_payload(payload: &[u8], led_toggle: bool) -> (decision: Option<bool>)
    ensures
        payload@ == ping_payload() ==> decision == Some(!led_toggle),
        payload@ != ping_payload() ==> decision is None,
{
    let expected: [u8; 5] = [80, 105, 110, 103, 33];
    if payload.len() != 5 {
        proof {
            assert(payload@ != ping_payload());
        }
        return None;
    }
    let mut i: usize = 0;
    while i < 5
        invariant
            i <= 5,
            payload@.len() == 5,
            expected@ == ping_payload(),
            forall|j: int| 0 <= j < i ==> payload@[j] == ping_payload()[j],
        decreases 5 - i,
    {
        if payload[i] != expected[i] {
            proof {
                assert(payload@[i as int] != ping_payload()[i as int]);
            }
            return None;
        }
        i = i + 1;
    }
    proof {
        assert(payload@ =~= ping_payload());
    }
    Some(!led_toggle)
}

} // verus!
