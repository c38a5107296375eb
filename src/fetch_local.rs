//! Local addressing of the chosen interface, from the host's interface list.

use crate::internal_comms::LocalInfo;
use crate::session::opt_text;
use vstd::prelude::*;

verus! {

/// One address of an interface, as text: the address and its prefix length.
#[derive(Debug)]
pub struct InterfaceAddress {
    pub ip: String,
    pub prefix: String,
}

/// One network interface of the host with its addresses, primary first.
#[derive(Debug)]
pub struct NetInterface {
    pub name: String,
    pub ips: Vec<InterfaceAddress>,
}

/// `i` is the first interface of the list that carries this name.
pub open spec fn is_first_named(interfaces: Seq<NetInterface>, name: Seq<char>, i: int) -> bool {
    &&& 0 <= i < interfaces.len()
    &&& interfaces[i].name@ == name
    &&& forall|j: int| 0 <= j < i ==> (#[trigger] interfaces[j]).name@ != name
}

/// The position of the first interface with this name, if there is one.
fn find_interface(interfaces: &Vec<NetInterface>, name: &String) -> (r: Option<usize>)
    ensures
        r matches Some(i) ==> is_first_named(interfaces@, name@, i as int),
        r is None ==> forall|j: int|
            0 <= j < interfaces@.len() ==> (#[trigger] interfaces@[j]).name@ != name@,
{
    let mut i: usize = 0;
    while i < interfaces.len()
        invariant
            i <= interfaces@.len(),
            forall|j: int| 0 <= j < i ==> (#[trigger] interfaces@[j]).name@ != name@,
        decreases interfaces@.len() - i,
    {
        if interfaces[i].name == *name {
            return Some(i);
        }
        i = i + 1;
    }
    None
}

/// The primary address of the named interface; `Err` where no interface has
/// that name or the first one that has it carries no address.
pub fn get_interface_ip(interfaces: &Vec<NetInterface>, interface: &String) -> (r: Result<String, ()>)
    ensures
        r matches Ok(ip) ==> exists|i: int|
            is_first_named(interfaces@, interface@, i) && interfaces@[i].ips@.len() > 0
                && ip@ == (#[trigger] interfaces@[i]).ips@[0].ip@,
        r is Err ==> forall|i: int|
            is_first_named(interfaces@, interface@, i) ==> (#[trigger] interfaces@[i]).ips@.len()
                == 0,
{
    match find_interface(interfaces, interface) {
        Some(i) => {
            if interfaces[i].ips.len() > 0 {
                Ok(interfaces[i].ips[0].ip.clone())
            } else {
                Err(())
            }
        },
        None => Err(()),
    }
}

/// The local addressing of the named interface: the primary address and
/// prefix length of the first interface with that name, both unknown where
/// no interface has the name or it carries no address, and the given gateway.
/// The probe always has this to report, even for a missing interface.
pub fn local_info_for(
    interfaces: &Vec<NetInterface>,
    interface: &String,
    gateway: Option<String>,
) -> (r: LocalInfo)
    ensures
        opt_text(r.gateway) == opt_text(gateway),
        r.local_ip is Some == r.subnet_mask is Some,
        r.local_ip is Some ==> exists|i: int|
            is_first_named(interfaces@, interface@, i) && interfaces@[i].ips@.len() > 0
                && opt_text(r.local_ip) == Some((#[trigger] interfaces@[i]).ips@[0].ip@)
                && opt_text(r.subnet_mask) == Some(interfaces@[i].ips@[0].prefix@),
        r.local_ip is None ==> forall|i: int|
            is_first_named(interfaces@, interface@, i) ==> (#[trigger] interfaces@[i]).ips@.len()
                == 0,
{
    let (local_ip, subnet_mask) = match find_interface(interfaces, interface) {
        Some(i) => {
            let iface = &interfaces[i];
            if iface.ips.len() > 0 {
                (Some(iface.ips[0].ip.clone()), Some(iface.ips[0].prefix.clone()))
            } else {
                (None, None)
            }
        },
        None => (None, None),
    };
    LocalInfo { local_ip, subnet_mask, gateway }
}

/// Unicode white space, as `char::is_whitespace` defines it.
pub open spec fn is_white(c: char) -> bool {
    ||| '\u{9}' <= c && c <= '\u{d}'
    ||| c == ' '
    ||| c == '\u{85}'
    ||| c == '\u{a0}'
    ||| c == '\u{1680}'
    ||| '\u{2000}' <= c && c <= '\u{200a}'
    ||| c == '\u{2028}'
    ||| c == '\u{2029}'
    ||| c == '\u{202f}'
    ||| c == '\u{205f}'
    ||| c == '\u{3000}'
}

fn is_white_char(c: char) -> (r: bool)
    ensures
        r == is_white(c),
{
    ('\u{9}' <= c && c <= '\u{d}') || c == ' ' || c == '\u{85}' || c == '\u{a0}' || c == '\u{1680}'
        || ('\u{2000}' <= c && c <= '\u{200a}') || c == '\u{2028}' || c == '\u{2029}' || c
        == '\u{202f}' || c == '\u{205f}' || c == '\u{3000}'
}

/// Number of characters from `i` up to the next newline or the end of the text.
pub open spec fn line_len(s: Seq<char>, i: int) -> nat
    decreases s.len() - i,
{
    if i < 0 || i >= s.len() || s[i] == '\n' {
        0
    } else {
        1 + line_len(s, i + 1)
    }
}

/// The word "default" starts at `k`.
pub open spec fn default_at(s: Seq<char>, k: int) -> bool {
    &&& 0 <= k
    &&& k + 7 <= s.len()
    &&& s[k] == 'd'
    &&& s[k + 1] == 'e'
    &&& s[k + 2] == 'f'
    &&& s[k + 3] == 'a'
    &&& s[k + 4] == 'u'
    &&& s[k + 5] == 'l'
    &&& s[k + 6] == 't'
}

/// The characters from `from` to `to` contain the word "default".
pub open spec fn mentions_default(s: Seq<char>, from: int, to: int) -> bool {
    exists|k: int| from <= k && k + 7 <= to && #[trigger] default_at(s, k)
}

/// Start of the first line, from the line starting at `i` on, that mentions
/// "default".
pub open spec fn default_line(s: Seq<char>, i: int) -> Option<int>
    decreases s.len() - i,
{
    if i < 0 || i >= s.len() {
        None
    } else if mentions_default(s, i, i + line_len(s, i)) {
        Some(i)
    } else {
        let next = i + line_len(s, i) + 1;
        if next > s.len() {
            None
        } else {
            default_line(s, next)
        }
    }
}

/// Number of consecutive characters from `i`, before `to`, that are white
/// space (`white`) or are not (`!white`).
pub open spec fn run_len(s: Seq<char>, i: int, to: int, white: bool) -> nat
    decreases to - i,
{
    if i < 0 || i >= to || i >= s.len() || is_white(s[i]) != white {
        0
    } else {
        1 + run_len(s, i + 1, to, white)
    }
}

/// Bounds of the `n`-th (from zero) white-space-separated word of the
/// characters from `i` to `to`.
pub open spec fn nth_word(s: Seq<char>, i: int, to: int, n: nat) -> Option<(int, int)>
    decreases n,
{
    let b = i + run_len(s, i, to, true);
    if b >= to || b >= s.len() {
        None
    } else {
        let e = b + run_len(s, b, to, false);
        if n == 0 {
            Some((b, e))
        } else {
            nth_word(s, e, to, (n - 1) as nat)
        }
    }
}

/// The gateway that `ip route show` output names: the third word of the
/// first line that mentions "default". `None` where no line does, or that
/// line has fewer than three words.
pub open spec fn gateway_of(s: Seq<char>) -> Option<Seq<char>> {
    match default_line(s, 0) {
        None => None,
        Some(i) => match nth_word(s, i, i + line_len(s, i), 2) {
            Some((b, e)) => Some(s.subrange(b, e)),
            None => None,
        },
    }
}

fn char_vec(text: &str) -> (r: Vec<char>)
    ensures
        r@ == text@,
{
    let n = text.unicode_len();
    let mut r: Vec<char> = Vec::new();
    let mut i: usize = 0;
    while i < n
        invariant
            n == text@.len(),
            i <= n,
            r@ == text@.subrange(0, i as int),
        decreases n - i,
    {
        r.push(text.get_char(i));
        i = i + 1;
        assert(r@ =~= text@.subrange(0, i as int));
    }
    assert(r@ =~= text@);
    r
}

/// Index where the run of white (or non-white) characters from `i` ends.
fn run_end(s: &Vec<char>, i: usize, to: usize, white: bool) -> (r: usize)
    requires
        i <= to <= s@.len(),
    ensures
        r == i + run_len(s@, i as int, to as int, white),
        r <= to,
{
    let mut j = i;
    while j < to && is_white_char(s[j]) == white
        invariant
            i <= j <= to,
            to <= s@.len(),
            j + run_len(s@, j as int, to as int, white) == i + run_len(s@, i as int, to as int, white),
        decreases to - j,
    {
        j = j + 1;
    }
    j
}

/// The gateway named in the output of `ip route show dev <interface>`: the
/// third word of the first line that mentions "default". `Err` where no line
/// mentions it or that line is too short.
pub fn parse_default_gateway(output: &str) -> (r: Result<String, ()>)
    ensures
        r matches Ok(g) ==> gateway_of(output@) == Some(g@),
        r is Err ==> gateway_of(output@) is None,
{
    let s = char_vec(output);
    let n = s.len();
    let mut i: usize = 0;
    while i < n
        invariant
            n == s@.len(),
            s@ == output@,
            i <= n,
            default_line(s@, i as int) == default_line(s@, 0),
        decreases n - i,
    {
        let mut e = i;
        while e < n && s[e] != '\n'
            invariant
                i <= e <= n,
                n == s@.len(),
                e + line_len(s@, e as int) == i + line_len(s@, i as int),
            decreases n - e,
        {
            e = e + 1;
        }
        let mut found = false;
        let mut k = i;
        while k < e && e - k >= 7
            invariant
                i <= k <= e,
                e <= n,
                n == s@.len(),
                found == (exists|q: int| i <= q < k && q + 7 <= e && #[trigger] default_at(s@, q)),
            decreases e - k,
        {
            let hit = s[k] == 'd' && s[k + 1] == 'e' && s[k + 2] == 'f' && s[k + 3] == 'a' && s[k
                + 4] == 'u' && s[k + 5] == 'l' && s[k + 6] == 't';
            assert(hit == default_at(s@, k as int));
            if hit {
                found = true;
            }
            k = k + 1;
        }
        proof {
            if mentions_default(s@, i as int, e as int) {
                let q = choose|q: int| i <= q && q + 7 <= e && #[trigger] default_at(s@, q);
                assert(i <= q < k);
            }
        }
        if found {
            let mut p = i;
            let mut left: usize = 2;
            loop
                invariant
                    i <= p <= e,
                    e <= n,
                    n == s@.len(),
                    s@ == output@,
                    left <= 2,
                    default_line(s@, 0) == Some(i as int),
                    e == i + line_len(s@, i as int),
                    nth_word(s@, p as int, e as int, left as nat) == nth_word(
                        s@,
                        i as int,
                        e as int,
                        2,
                    ),
                decreases left,
            {
                let b = run_end(&s, p, e, true);
                if b >= e {
                    return Err(());
                }
                let w = run_end(&s, b, e, false);
                if left == 0 {
                    let word = output.substring_char(b, w);
                    return Ok(word.to_owned());
                }
                left = left - 1;
                p = w;
            }
        }
        if e == n {
            return Err(());
        }
        i = e + 1;
    }
    Err(())
}

} // verus!
