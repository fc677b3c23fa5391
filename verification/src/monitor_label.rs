use vstd::prelude::*;
use vstd::string::StringSliceAdditionalSpecFns;

verus! {

/// A byte may appear in a serial-monitor label: a lowercase ASCII letter or `_`.
pub open spec fn monitor_byte_ok(b: u8) -> bool {
    (0x61 <= b && b <= 0x7a) || b == 0x5f
}

/// A label is safe for the serial monitor when it is non-empty and made of
/// lowercase ASCII letters and underscores only.
pub open spec fn monitor_bytes_safe(bytes: Seq<u8>) -> bool {
    &&& bytes.len() > 0
    &&& forall|i: int| 0 <= i < bytes.len() ==> #[trigger] monitor_byte_ok(bytes[i])
}

/// The same property stated over the characters of a string.
pub open spec fn monitor_chars_safe(chars: Seq<char>) -> bool {
    &&& chars.len() > 0
    &&& forall|i: int|
        0 <= i < chars.len() ==> (('a' <= #[trigger] chars[i] && chars[i] <= 'z') || chars[i] == '_')
}

/// A string label is monitor safe.
pub open spec fn label_safe(s: &str) -> bool {
    monitor_bytes_safe(s.spec_bytes())
}

/// A label whose characters are lowercase letters or underscores is monitor safe
/// as bytes too: such a string is ASCII, and its bytes are its characters.
pub proof fn lemma_chars_safe_bytes_safe(s: &str)
    requires
        monitor_chars_safe(s@),
    ensures
        label_safe(s),
{
    assert(vstd::string::is_ascii(s));
    vstd::string::is_ascii_spec_bytes(s);
    assert forall|i: int| 0 <= i < s.spec_bytes().len() implies #[trigger] monitor_byte_ok(
        s.spec_bytes()[i],
    ) by {
        let c = s@[i];
        assert(('a' <= c && c <= 'z') || c == '_');
    }
}

/// Checks that a label is non-empty and made only of lowercase ASCII letters
/// and underscores, so it can be printed on the serial monitor as a bare token.
pub fn r10_ble_device_task_monitor_label_is_safe(label: &str) -> (r: bool)
    ensures
        r == label_safe(label),
{
    let bytes = label.as_bytes();
    if bytes.len() == 0 {
        return false;
    }
    let mut i: usize = 0;
    while i < bytes.len()
        invariant
            0 <= i <= bytes@.len(),
            bytes@ == label.spec_bytes(),
            forall|j: int| 0 <= j < i ==> #[trigger] monitor_byte_ok(bytes@[j]),
        decreases bytes@.len() - i,
    {
        let b = bytes[i];
        if !((0x61u8 <= b && b <= 0x7au8) || b == 0x5fu8) {
            assert(!monitor_byte_ok(bytes@[i as int]));
            return false;
        }
        i = i + 1;
    }
    true
}

} // verus!
