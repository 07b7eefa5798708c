use vstd::prelude::*;
use vstd::string::StrSliceExecFns;

verus! {

/// A caller's window on the window system it runs on; only used to parent
/// the dialogs shown for a call.
#[derive(Debug, Clone, PartialEq, Eq)]
pub enum WindowIdentifierType {
    /// An X11 window id.
    X11(u64),
    /// A handle exported by the Wayland compositor.
    Wayland(String),
}

/// The value of a hexadecimal digit, either case.
pub open spec fn hex_digit_value(c: char) -> Option<nat> {
    if '0' <= c && c <= '9' {
        Some((c as nat - '0' as nat) as nat)
    } else if 'a' <= c && c <= 'f' {
        Some((c as nat - 'a' as nat + 10) as nat)
    } else if 'A' <= c && c <= 'F' {
        Some((c as nat - 'A' as nat + 10) as nat)
    } else {
        None
    }
}

/// The number that the hexadecimal digits `s` write; `None` where `s` is
/// empty or holds anything but digits.
pub open spec fn hex_value(s: Seq<char>) -> Option<nat>
    decreases s.len(),
{
    if s.len() == 0 {
        None
    } else if s.len() == 1 {
        hex_digit_value(s[0])
    } else {
        match (hex_value(s.drop_last()), hex_digit_value(s.last())) {
            (Some(a), Some(d)) => Some(a * 16 + d),
            _ => None,
        }
    }
}

/// The digits of an X11 window id: an optional leading `0x` is dropped.
pub open spec fn x11_digits(rest: Seq<char>) -> Seq<char> {
    if rest.len() >= 2 && rest[0] == '0' && rest[1] == 'x' {
        rest.subrange(2, rest.len() as int)
    } else {
        rest
    }
}

pub open spec fn has_prefix(s: Seq<char>, p: Seq<char>) -> bool {
    s.len() >= p.len() && s.subrange(0, p.len() as int) == p
}

proof fn lemma_hex_value_grows(s: Seq<char>, n: int)
    requires
        1 <= n <= s.len(),
        hex_value(s) is Some,
    ensures
        hex_value(s.subrange(0, n)) is Some,
        hex_value(s.subrange(0, n))->0 <= hex_value(s)->0,
    decreases s.len(),
{
    if n == s.len() {
        assert(s.subrange(0, n) =~= s);
    } else {
        let t = s.drop_last();
        assert(t.subrange(0, n) =~= s.subrange(0, n));
        lemma_hex_value_grows(t, n);
    }
}

fn digit_value(c: char) -> (r: Option<u64>)
    ensures
        r is Some <==> hex_digit_value(c) is Some,
        r is Some ==> r->0 as nat == hex_digit_value(c)->0 && r->0 < 16,
{
    if '0' <= c && c <= '9' {
        Some((c as u64) - ('0' as u64))
    } else if 'a' <= c && c <= 'f' {
        Some((c as u64) - ('a' as u64) + 10)
    } else if 'A' <= c && c <= 'F' {
        Some((c as u64) - ('A' as u64) + 10)
    } else {
        None
    }
}

/// The number that the hexadecimal digits `s` write, or `None` where they
/// write none or one that does not fit in 64 bits.
pub fn parse_hex(s: &str) -> (r: Option<u64>)
    ensures
        r is Some <==> (hex_value(s@) is Some && hex_value(s@)->0 <= u64::MAX),
        r is Some ==> r->0 as nat == hex_value(s@)->0,
{
    let n = s.unicode_len();
    if n == 0 {
        return None;
    }
    let mut acc: u64 = 0;
    let mut i: usize = 0;
    while i < n
        invariant
            n == s@.len(),
            0 < n,
            i <= n,
            i > 0 ==> hex_value(s@.subrange(0, i as int)) == Some(acc as nat),
            i == 0 ==> acc == 0,
        decreases n - i,
    {
        let c = s.get_char(i);
        let d = match digit_value(c) {
            Some(d) => d,
            None => {
                proof {
                    if hex_value(s@) is Some {
                        lemma_hex_value_grows(s@, i + 1);
                        let p = s@.subrange(0, i + 1);
                        assert(p.last() == c);
                        if i > 0 {
                            assert(p.drop_last() =~= s@.subrange(0, i as int));
                        }
                    }
                }
                return None;
            },
        };
        if acc > (u64::MAX - d) / 16 {
            proof {
                let p = s@.subrange(0, i + 1);
                assert(p.drop_last() =~= s@.subrange(0, i as int));
                assert(p.last() == c);
                assert(acc * 16 + d > u64::MAX) by (nonlinear_arith)
                    requires
                        acc > (u64::MAX - d) / 16,
                        d < 16,
                ;
                if hex_value(s@) is Some {
                    lemma_hex_value_grows(s@, i + 1);
                }
            }
            return None;
        }
        proof {
            assert(acc * 16 + d <= u64::MAX) by (nonlinear_arith)
                requires
                    acc <= (u64::MAX - d) / 16,
                    d < 16,
            ;
            let p = s@.subrange(0, i + 1);
            assert(p.last() == c);
            if i > 0 {
                assert(p.drop_last() =~= s@.subrange(0, i as int));
            } else {
                assert(p.len() == 1);
            }
        }
        acc = acc * 16 + d;
        i = i + 1;
    }
    assert(s@.subrange(0, n as int) =~= s@);
    Some(acc)
}

fn starts_with(s: &str, p: &str) -> (r: bool)
    ensures
        r == has_prefix(s@, p@),
{
    let n = p.unicode_len();
    if s.unicode_len() < n {
        return false;
    }
    let mut i: usize = 0;
    while i < n
        invariant
            n == p@.len(),
            n <= s@.len(),
            i <= n,
            forall|j: int| 0 <= j < i ==> s@[j] == p@[j],
        decreases n - i,
    {
        if s.get_char(i) != p.get_char(i) {
            assert(s@.subrange(0, n as int)[i as int] != p@[i as int]);
            return false;
        }
        i = i + 1;
    }
    assert(s@.subrange(0, n as int) =~= p@);
    true
}

impl WindowIdentifierType {
    /// Reads a window identifier in its wire form: `x11:` followed by the
    /// window id in hexadecimal (with or without `0x`), or `wayland:`
    /// followed by the exported handle. `None` for anything else.
    pub fn parse(s: &str) -> (r: Option<WindowIdentifierType>)
        ensures
            has_prefix(s@, "wayland:"@) ==> r is Some && r->0 is Wayland && r->0->Wayland_0@
                == s@.subrange(8, s@.len() as int),
            has_prefix(s@, "x11:"@) ==> {
                let digits = x11_digits(s@.subrange(4, s@.len() as int));
                &&& (r is Some <==> (hex_value(digits) is Some && hex_value(digits)->0 <= u64::MAX))
                &&& r is Some ==> r->0 is X11 && r->0->X11_0 as nat == hex_value(digits)->0
            },
            !has_prefix(s@, "wayland:"@) && !has_prefix(s@, "x11:"@) ==> r is None,
    {
        proof {
            reveal_strlit("wayland:");
            reveal_strlit("x11:");
            reveal_strlit("0x");
        }
        let n = s.unicode_len();
        if starts_with(s, "wayland:") {
            proof {
                assert(s@.subrange(0, 8)[0] == 'w');
                if has_prefix(s@, "x11:"@) {
                    assert(s@.subrange(0, 4)[0] == 'x');
                }
            }
            let handle = s.substring_char(8, n);
            return Some(WindowIdentifierType::Wayland(handle.to_owned()));
        }
        if starts_with(s, "x11:") {
            let rest = s.substring_char(4, n);
            proof {
                if rest@.len() >= 2 {
                    assert(rest@.subrange(0, 2)[0] == rest@[0]);
                    assert(rest@.subrange(0, 2)[1] == rest@[1]);
                    if rest@[0] == '0' && rest@[1] == 'x' {
                        assert(rest@.subrange(0, 2) =~= "0x"@);
                    }
                }
            }
            let digits = if starts_with(rest, "0x") {
                rest.substring_char(2, rest.unicode_len())
            } else {
                rest
            };
            assert(digits@ == x11_digits(s@.subrange(4, s@.len() as int)));
            return match parse_hex(digits) {
                Some(v) => Some(WindowIdentifierType::X11(v)),
                None => None,
            };
        }
        None
    }
}

/// A window identifier that a client may leave unset.
#[derive(Debug, Clone, PartialEq, Eq)]
pub struct WindowIdentifier {
    pub target: Option<WindowIdentifierType>,
}

impl WindowIdentifier {
    /// No window: dialogs are shown without a parent.
    pub fn none() -> (r: Self)
        ensures
            r.target is None,
    {
        WindowIdentifier { target: None }
    }

    pub fn from_type(target: WindowIdentifierType) -> (r: Self)
        ensures
            r.target == Some(target),
    {
        WindowIdentifier { target: Some(target) }
    }

    pub fn is_set(&self) -> (r: bool)
        ensures
            r == (self.target is Some),
    {
        self.target.is_some()
    }
}

} // verus!
