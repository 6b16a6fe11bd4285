//! The key material that signs and verifies tokens.

use vstd::prelude::*;
use vstd::slice::slice_to_vec;

verus! {

/// Why key material could not be built.
#[derive(Debug, Clone, Copy, PartialEq, Eq, Structural)]
pub enum KeyError {
    /// The configured secret holds no bytes.
    EmptySecret,
}

/// The symmetric secret of the process. Built once at start-up, never
/// changed afterwards, and shared by reference or by cloning. It has no
/// `Debug` form, so that the secret does not end up in a log.
pub struct Keys {
    secret: Vec<u8>,
}

impl View for Keys {
    type V = Seq<u8>;

    /// The bytes of the secret.
    closed spec fn view(&self) -> Seq<u8> {
        self.secret@
    }
}

impl Keys {
    #[verifier::type_invariant]
    spec fn well_formed(&self) -> bool {
        self.secret@.len() > 0
    }

    /// Builds the key material from a secret. Every non-empty secret is
    /// accepted; the empty one is refused here, at construction.
    pub fn new(secret: &[u8]) -> (r: Result<Keys, KeyError>)
        ensures
            match r {
                Ok(keys) => secret@.len() > 0 && keys@ == secret@,
                Err(e) => secret@.len() == 0 && e == KeyError::EmptySecret,
            },
    {
        if secret.len() == 0 {
            Err(KeyError::EmptySecret)
        } else {
            Ok(Keys { secret: slice_to_vec(secret) })
        }
    }

    /// The bytes of the secret, which are never empty.
    pub fn secret(&self) -> (r: &[u8])
        ensures
            r@ == self@,
            r@.len() > 0,
    {
        proof {
            use_type_invariant(self);
        }
        self.secret.as_slice()
    }
}

impl Clone for Keys {
    /// A copy that holds the same secret.
    fn clone(&self) -> (r: Self)
        ensures
            r@ == self@,
    {
        proof {
            use_type_invariant(self);
        }
        Keys { secret: slice_to_vec(self.secret.as_slice()) }
    }
}

} // verus!
