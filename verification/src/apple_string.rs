//! Text as the machine's character set encodes it: uppercase letters move
//! down to the 0x01..0x1A block, a handful of punctuation characters move
//! into the control block, the rest of printable ASCII keeps its code, and
//! anything else becomes the 0x56 filler glyph.
use vstd::prelude::*;
use vstd::string::StrSliceExecFns;

verus! {

/// A host string together with its rendering in the machine's character
/// set, character for character.
pub struct AppleIIeString {
    pub string: String,
    pub a2string: String,
}

/// The machine-set character for one host character.
pub open spec fn a2_char(c: char) -> char {
    let n = c as u32;
    if 65 <= n <= 90 {
        // uppercase letters land at 0x01 + (letter index)
        (n - 64) as char
    } else if 97 <= n <= 122 {
        // lowercase letters keep their code
        c
    } else if 48 <= n <= 57 {
        // digits keep their code
        c
    } else if 0x5B <= n <= 0x5F {
        // bracket .. underscore move into the control block
        (n - 0x40) as char
    } else if 0x20 <= n <= 0x2F || 0x3A <= n <= 0x3F {
        // the remaining printable punctuation keeps its code
        c
    } else {
        // everything else renders as the filler glyph
        0x56u8 as char
    }
}

/// The machine-set rendering of a whole string.
pub open spec fn a2_text(s: Seq<char>) -> Seq<char> {
    Seq::new(s.len(), |i: int| a2_char(s[i]))
}

/// Relies on `String::push`: it appends exactly the one given character.
#[verifier::external_body]
fn push_char(s: &mut String, c: char)
    ensures
        final(s)@ == old(s)@ + seq![c],
{
    s.push(c);
}

impl AppleIIeString {
    /// Renders a host string into the machine's character set.
    pub fn from_str(str: String) -> (r: AppleIIeString)
        ensures
            r.string@ == str@,
            r.a2string@ == a2_text(str@),
    {
        let n = str.as_str().unicode_len();
        let mut a2 = String::new();
        let mut i: usize = 0;
        while i < n
            invariant
                n == str@.len(),
                0 <= i <= n,
                a2@ == a2_text(str@).take(i as int),
            decreases n - i,
        {
            let c = str.as_str().get_char(i);
            let m = c as u32;
            let newc: char = if 65 <= m && m <= 90 {
                char_from_control(m - 64)
            } else if 97 <= m && m <= 122 {
                c
            } else if 48 <= m && m <= 57 {
                c
            } else if 0x5B <= m && m <= 0x5F {
                char_from_control(m - 0x40)
            } else if (0x20 <= m && m <= 0x2F) || (0x3A <= m && m <= 0x3F) {
                c
            } else {
                0x56u8 as char
            };
            push_char(&mut a2, newc);
            proof {
                assert(newc == a2_char(str@[i as int]));
                assert(a2@ =~= a2_text(str@).take(i + 1));
            }
            i = i + 1;
        }
        proof {
            assert(a2_text(str@).take(n as int) =~= a2_text(str@));
        }
        AppleIIeString { string: str, a2string: a2 }
    }

    /// Wraps text already in the machine's character set; the host-side
    /// rendering starts out empty.
    pub fn from_a2(a2: String) -> (r: AppleIIeString)
        ensures
            r.string@ == Seq::<char>::empty(),
            r.a2string@ == a2@,
    {
        let str = String::new();
        AppleIIeString { string: str, a2string: a2 }
    }
}

/// A character in the low control block, from its code.
fn char_from_control(n: u32) -> (c: char)
    requires
        1 <= n <= 0x1F,
    ensures
        c == n as char,
{
    (n as u8) as char
}

} // verus!
