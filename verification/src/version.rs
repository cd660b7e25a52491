use vstd::prelude::*;
use vstd::string::StringExecFns;

verus! {

/// Protocol version 1.0 as it appears in the handshake.
pub const V1_0: u32 = 0x0000_0001;

/// Protocol version 2.0 as it appears in the handshake.
pub const V2_0: u32 = 0x0000_0002;

/// Protocol version 3.0 as it appears in the handshake.
pub const V3_0: u32 = 0x0000_0003;

/// Protocol version 4.0 as it appears in the handshake.
pub const V4_0: u32 = 0x0000_0004;

/// Protocol version 4.1 as it appears in the handshake: minor in the second byte.
pub const V4_1: u32 = 0x0000_0104;

/// Whether `version` is one of the protocol versions this library speaks.
pub open spec fn is_known_version(version: u32) -> bool {
    version == V1_0 || version == V2_0 || version == V3_0 || version == V4_0 || version == V4_1
}

/// Decides whether `version` is one of the protocol versions this library speaks.
pub fn known_version(version: u32) -> (known: bool)
    ensures
        known == is_known_version(version),
{
    version == V1_0 || version == V2_0 || version == V3_0 || version == V4_0 || version == V4_1
}

/// The digit of value `d` in base 16, in lower case.
pub open spec fn hex_digit(d: int) -> char {
    "0123456789abcdef"@[d]
}

/// The digits of `n` in base 16, in lower case, without leading zeros.
pub open spec fn hex_digits(n: nat) -> Seq<char>
    decreases n,
{
    if n < 16 {
        seq![hex_digit(n as int)]
    } else {
        hex_digits(n / 16).push(hex_digit((n % 16) as int))
    }
}

/// How a version is shown: major and minor for the versions this library
/// speaks, else the number in base 16 behind `0x`.
pub open spec fn version_text(version: u32) -> Seq<char> {
    if version == V1_0 {
        "1.0"@
    } else if version == V2_0 {
        "2.0"@
    } else if version == V3_0 {
        "3.0"@
    } else if version == V4_0 {
        "4.0"@
    } else if version == V4_1 {
        "4.1"@
    } else {
        "0x"@ + hex_digits(version as nat)
    }
}

/// How a list of versions is shown: each as `version_text` shows it, with a
/// comma and a space between two of them.
pub open spec fn versions_text(versions: Seq<u32>) -> Seq<char>
    decreases versions.len(),
{
    if versions.len() == 0 {
        Seq::empty()
    } else if versions.len() == 1 {
        version_text(versions[0])
    } else {
        versions_text(versions.drop_last()) + ", "@ + version_text(versions.last())
    }
}

/// The digit of value `d` in base 16 as a string.
fn hex_digit_text(d: u32) -> (text: &'static str)
    requires
        d < 16,
    ensures
        text@ == seq![hex_digit(d as int)],
{
    proof {
        reveal_strlit("0123456789abcdef");
        reveal_strlit("0");
        reveal_strlit("1");
        reveal_strlit("2");
        reveal_strlit("3");
        reveal_strlit("4");
        reveal_strlit("5");
        reveal_strlit("6");
        reveal_strlit("7");
        reveal_strlit("8");
        reveal_strlit("9");
        reveal_strlit("a");
        reveal_strlit("b");
        reveal_strlit("c");
        reveal_strlit("d");
        reveal_strlit("e");
        reveal_strlit("f");
    }
    let text: &'static str = match d {
        0 => "0",
        1 => "1",
        2 => "2",
        3 => "3",
        4 => "4",
        5 => "5",
        6 => "6",
        7 => "7",
        8 => "8",
        9 => "9",
        10 => "a",
        11 => "b",
        12 => "c",
        13 => "d",
        14 => "e",
        _ => "f",
    };
    assert(text@ =~= seq![hex_digit(d as int)]);
    text
}

/// Appends the digits of `n` in base 16.
fn push_hex(n: u32, out: &mut String)
    ensures
        final(out)@ == old(out)@ + hex_digits(n as nat),
    decreases n,
{
    if n >= 16 {
        push_hex(n / 16, out);
    }
    out.append(hex_digit_text(n % 16));
    assert(out@ =~= old(out)@ + hex_digits(n as nat));
}

/// Shows a number in base 16 behind `0x`, in lower case and without leading zeros.
pub fn format_hex(n: u32) -> (text: String)
    ensures
        text@ == "0x"@ + hex_digits(n as nat),
{
    let mut text = String::from_str("0x");
    push_hex(n, &mut text);
    text
}

/// Shows a version: `1.0`, `2.0`, `3.0`, `4.0` or `4.1` for the versions this
/// library speaks, else the number in base 16 behind `0x`.
pub fn format_version(version: u32) -> (text: String)
    ensures
        text@ == version_text(version),
{
    match version {
        V1_0 => String::from_str("1.0"),
        V2_0 => String::from_str("2.0"),
        V3_0 => String::from_str("3.0"),
        V4_0 => String::from_str("4.0"),
        V4_1 => String::from_str("4.1"),
        _ => format_hex(version),
    }
}

/// Shows a list of versions, with a comma and a space between two of them.
pub fn format_versions(versions: &[u32]) -> (text: String)
    ensures
        text@ == versions_text(versions@),
{
    let mut text = String::new();
    let mut i: usize = 0;
    while i < versions.len()
        invariant
            i <= versions@.len(),
            text@ == versions_text(versions@.take(i as int)),
        decreases versions@.len() - i,
    {
        if i > 0 {
            text.append(", ");
        }
        let shown = format_version(versions[i]);
        text.append(shown.as_str());
        proof {
            let upto = versions@.take(i + 1);
            assert(upto.drop_last() =~= versions@.take(i as int));
            assert(upto.last() == versions@[i as int]);
            if i == 0 {
                assert(versions_text(versions@.take(0)) =~= Seq::<char>::empty());
                assert(text@ =~= version_text(versions@[0]));
            }
        }
        i += 1;
    }
    proof {
        assert(versions@.take(i as int) =~= versions@);
    }
    text
}

} // verus!
