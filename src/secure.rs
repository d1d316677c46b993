//! A string holding secret material: readable only through an explicit accessor,
//! redacted in its debug text, and overwritten with zeros when dropped.
use vstd::prelude::*;
use vstd::string::StringExecFns;
use zeroize::Zeroize;

verus! {

/// Secret text, such as a hex-encoded private key.
pub struct SecureString {
    data: String,
}

/// Relies on zeroize's impl of Zeroize for String: it overwrites the string's bytes and
/// spare capacity with zeros and then clears it.
#[verifier::external_body]
fn wipe(s: &mut String)
    ensures
        final(s)@ == Seq::<char>::empty(),
    opens_invariants none
    no_unwind
{
    s.zeroize();
}

impl SecureString {
    /// The secret text held.
    pub closed spec fn view(&self) -> Seq<char> {
        self.data@
    }

    /// Takes ownership of the secret text.
    pub fn new(data: String) -> (r: Self)
        ensures
            r.view() == data@,
    {
        Self { data }
    }

    /// Reads the secret text without copying it.
    pub fn expose(&self) -> (r: &str)
        ensures
            r@ == self.view(),
    {
        self.data.as_str()
    }

    /// Overwrites the secret text with zeros and leaves the string empty.
    pub fn zeroize(&mut self)
        ensures
            final(self).view() == Seq::<char>::empty(),
    {
        wipe(&mut self.data);
    }

    /// Debug text that names the type but never shows the secret.
    pub fn debug_repr(&self) -> (r: String)
        ensures
            r@ == redacted_debug_text(),
    {
        String::from_str("SecureString { data: \"[REDACTED]\" }")
    }
}

/// The fixed debug text of every secret string.
pub open spec fn redacted_debug_text() -> Seq<char> {
    "SecureString { data: \"[REDACTED]\" }"@
}

impl Drop for SecureString {
    fn drop(&mut self)
        opens_invariants none
        no_unwind
    {
        wipe(&mut self.data);
    }
}

} // verus!
