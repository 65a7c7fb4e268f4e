use vstd::prelude::*;

use crate::error::{OracleCheck, RunError};

verus! {

/// The four ciphertexts a run compares.
pub struct CipherOutcome {
    /// The payload key wrapped under the first IV.
    pub wrapped_first: Vec<u8>,
    /// The payload key wrapped under the second IV.
    pub wrapped_second: Vec<u8>,
    /// The raw payload key bytes encrypted under the first IV.
    pub encrypted_first: Vec<u8>,
    /// The raw payload key bytes encrypted under the second IV.
    pub encrypted_second: Vec<u8>,
}

/// The equivalences a successful run establishes: wrapping a key equals
/// encrypting its raw bytes under each IV, and the two IVs give different wraps.
pub open spec fn oracle_holds(o: CipherOutcome) -> bool {
    &&& o.wrapped_first@ == o.encrypted_first@
    &&& o.wrapped_first@ != o.wrapped_second@
    &&& o.wrapped_second@ == o.encrypted_second@
}

/// The first comparison that fails, in the order the run makes them.
pub open spec fn first_failed_check(o: CipherOutcome) -> Option<OracleCheck> {
    if o.wrapped_first@ != o.encrypted_first@ {
        Some(OracleCheck::FirstIvWrapMatchesEncrypt)
    } else if o.wrapped_first@ == o.wrapped_second@ {
        Some(OracleCheck::WrapDependsOnIv)
    } else if o.wrapped_second@ != o.encrypted_second@ {
        Some(OracleCheck::SecondIvWrapMatchesEncrypt)
    } else {
        None
    }
}

/// Byte-wise equality of two byte strings.
pub fn bytes_equal(a: &Vec<u8>, b: &Vec<u8>) -> (r: bool)
    ensures
        r == (a@ == b@),
{
    if a.len() != b.len() {
        return false;
    }
    let mut i: usize = 0;
    while i < a.len()
        invariant
            a@.len() == b@.len(),
            i <= a@.len(),
            forall|j: int| 0 <= j < i ==> a@[j] == b@[j],
        decreases a@.len() - i,
    {
        if a[i] != b[i] {
            return false;
        }
        i = i + 1;
    }
    assert(a@ =~= b@);
    true
}

impl CipherOutcome {
    /// Checks the equivalences, and names the first one that fails.
    pub fn check(&self) -> (r: Result<(), RunError>)
        ensures
            r is Ok <==> oracle_holds(*self),
            first_failed_check(*self) matches Some(c) ==> r == Err::<(), RunError>(
                RunError::OracleMismatch(c),
            ),
    {
        if !bytes_equal(&self.wrapped_first, &self.encrypted_first) {
            return Err(RunError::OracleMismatch(OracleCheck::FirstIvWrapMatchesEncrypt));
        }
        if bytes_equal(&self.wrapped_first, &self.wrapped_second) {
            return Err(RunError::OracleMismatch(OracleCheck::WrapDependsOnIv));
        }
        if !bytes_equal(&self.wrapped_second, &self.encrypted_second) {
            return Err(RunError::OracleMismatch(OracleCheck::SecondIvWrapMatchesEncrypt));
        }
        Ok(())
    }
}

} // verus!
