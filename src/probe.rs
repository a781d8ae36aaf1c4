use vstd::prelude::*;
use crate::error::RttError;

verus! {

/// A connected debug probe as enumerated by the probe access layer.
#[derive(Clone, Debug)]
pub struct ProbeDescriptor {
    /// The probe's identifier (for example its product name).
    pub identifier: String,
    /// The probe's serial number, if it reports one.
    pub serial_number: Option<String>,
}

/// `needle` occurs in `hay` as a contiguous run of characters.
pub open spec fn contains_seq(hay: Seq<char>, needle: Seq<char>) -> bool {
    exists|i: int|
        0 <= i && i + needle.len() <= hay.len() && #[trigger] hay.subrange(i, i + needle.len())
            == needle
}

/// The probe's serial number or identifier contains `selector`.
pub open spec fn probe_matches(p: ProbeDescriptor, selector: Seq<char>) -> bool {
    (p.serial_number.is_some() && contains_seq(p.serial_number.unwrap()@, selector))
        || contains_seq(p.identifier@, selector)
}

/// `i` is the first position in `probes` whose probe matches `selector`.
pub open spec fn first_match(probes: Seq<ProbeDescriptor>, selector: Seq<char>, i: int) -> bool {
    &&& 0 <= i < probes.len()
    &&& probe_matches(probes[i], selector)
    &&& forall|j: int| 0 <= j < i ==> !probe_matches(#[trigger] probes[j], selector)
}

/// The characters of `s`, in order.
fn chars_of(s: &str) -> (r: Vec<char>)
    ensures
        r@ == s@,
{
    let n = s.unicode_len();
    let mut r: Vec<char> = Vec::new();
    let mut i: usize = 0;
    while i < n
        invariant
            n == s@.len(),
            i <= n,
            r@ == s@.subrange(0, i as int),
        decreases n - i,
    {
        r.push(s.get_char(i));
        i = i + 1;
        assert(r@ =~= s@.subrange(0, i as int));
    }
    assert(r@ =~= s@);
    r
}

/// `hay[start..start + needle.len()]` equals `needle`.
fn matches_at(hay: &Vec<char>, needle: &Vec<char>, start: usize) -> (r: bool)
    requires
        start + needle@.len() <= hay@.len(),
    ensures
        r == (hay@.subrange(start as int, start + needle@.len()) == needle@),
{
    let hay_len = hay.len();
    let mut k: usize = 0;
    while k < needle.len()
        invariant
            hay_len == hay@.len(),
            start + needle@.len() <= hay@.len(),
            k <= needle@.len(),
            forall|m: int| 0 <= m < k ==> hay@[start + m] == needle@[m],
        decreases needle@.len() - k,
    {
        if hay[start + k] != needle[k] {
            assert(hay@.subrange(start as int, start + needle@.len())[k as int] != needle@[k as int]);
            return false;
        }
        k = k + 1;
    }
    assert(hay@.subrange(start as int, start + needle@.len()) =~= needle@);
    true
}

/// Case-sensitive substring test: `needle` occurs somewhere in `hay`.
pub fn contains_text(hay: &str, needle: &str) -> (r: bool)
    ensures
        r == contains_seq(hay@, needle@),
{
    let h = chars_of(hay);
    let n = chars_of(needle);
    if n.len() > h.len() {
        return false;
    }
    let last = h.len() - n.len();
    let mut i: usize = 0;
    loop
        invariant
            h@ == hay@,
            n@ == needle@,
            last == h@.len() - n@.len(),
            i <= last,
            forall|j: int| 0 <= j < i ==> #[trigger] h@.subrange(j, j + n@.len()) != n@,
        ensures
            forall|j: int| 0 <= j <= last ==> #[trigger] h@.subrange(j, j + n@.len()) != n@,
        decreases last - i,
    {
        if matches_at(&h, &n, i) {
            return true;
        }
        if i == last {
            break;
        }
        i = i + 1;
    }
    assert forall|j: int| 0 <= j && j + needle@.len() <= hay@.len() implies #[trigger] hay@.subrange(j, j + needle@.len()) != needle@ by {
        assert(h@.subrange(j, j + n@.len()) != n@);
    }
    false
}

/// Whether the probe's serial number or identifier contains `selector`.
pub fn probe_matches_selector(p: &ProbeDescriptor, selector: &str) -> (r: bool)
    ensures
        r == probe_matches(*p, selector@),
{
    let by_serial = match &p.serial_number {
        Some(s) => contains_text(s.as_str(), selector),
        None => false,
    };
    by_serial || contains_text(p.identifier.as_str(), selector)
}

/// `r` is the outcome of choosing among `probes` with `selector`.
///
/// With no probes at all the outcome is `NoProbeFound`. With a selector, it is
/// the first probe whose serial number or identifier contains the selector,
/// or `ProbeSelectorMismatch` naming the selector when none does. Without a
/// selector it is the first probe, in the order given.
pub open spec fn is_selection(
    probes: Seq<ProbeDescriptor>,
    selector: Option<Seq<char>>,
    r: Result<usize, RttError>,
) -> bool {
    if probes.len() == 0 {
        r matches Err(RttError::NoProbeFound)
    } else {
        match selector {
            None => r == Ok::<usize, RttError>(0),
            Some(sel) => match r {
                Ok(i) => first_match(probes, sel, i as int),
                Err(RttError::ProbeSelectorMismatch(s)) => s@ == sel && forall|j: int|
                    0 <= j < probes.len() ==> !probe_matches(#[trigger] probes[j], sel),
                Err(_) => false,
            },
        }
    }
}

/// The view of an optional string.
pub open spec fn opt_view(s: Option<String>) -> Option<Seq<char>> {
    match s {
        Some(t) => Some(t@),
        None => None,
    }
}

/// Picks the probe to open among `probes` (see `is_selection`).
pub fn select_probe(probes: &Vec<ProbeDescriptor>, selector: &Option<String>) -> (r: Result<
    usize,
    RttError,
>)
    ensures
        is_selection(probes@, opt_view(*selector), r),
{
    if probes.len() == 0 {
        return Err(RttError::NoProbeFound);
    }
    match selector {
        None => Ok(0),
        Some(sel) => {
            let mut i: usize = 0;
            while i < probes.len()
                invariant
                    *selector == Some(*sel),
                    probes@.len() > 0,
                    i <= probes@.len(),
                    forall|j: int| 0 <= j < i ==> !probe_matches(#[trigger] probes@[j], sel@),
                decreases probes@.len() - i,
            {
                if probe_matches_selector(&probes[i], sel.as_str()) {
                    return Ok(i);
                }
                i = i + 1;
            }
            Err(RttError::ProbeSelectorMismatch(sel.clone()))
        },
    }
}

} // verus!
