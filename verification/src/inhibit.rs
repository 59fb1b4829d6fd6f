//! Power-management inhibition state.
//!
//! The desktop's policy agent hands out one cookie per inhibition policy;
//! releasing an inhibition means returning every cookie.  This module keeps
//! the cookie bookkeeping: which policies to request, which cookies are
//! held, and whether an inhibition is currently in force.  The caller
//! carries each request and release over the message bus and feeds the
//! results back.

use vstd::prelude::*;
use vstd::string::{StrSliceExecFns, StringExecFns};

verus! {

/// The policy codes one inhibition requests: interrupt-session,
/// change-profile and change-screen-settings.
pub fn inhibition_policies() -> (r: Vec<u32>)
    ensures
        r@ == seq![1u32, 2u32, 4u32],
{
    let mut r: Vec<u32> = Vec::new();
    r.push(1);
    r.push(2);
    r.push(4);
    proof {
        assert(r@ =~= seq![1u32, 2u32, 4u32]);
    }
    r
}

/// The cookies handed out for one inhibition, one per policy, in policy
/// order, with the released ones gone.
pub open spec fn pending_cookies_spec(c: Seq<Option<u32>>) -> Seq<u32>
    decreases c.len(),
{
    if c.len() == 0 {
        Seq::empty()
    } else {
        pending_cookies_spec(c.drop_last()) + match c.last() {
            Some(v) => seq![v],
            None => Seq::empty(),
        }
    }
}

/// The cookies of one power-management inhibition: at most one per policy,
/// and a flag saying whether an inhibition is in force.
pub struct PMCookies {
    cookies: Vec<Option<u32>>,
    inhibited: bool,
}

/// The mathematical content of the cookie state.
#[verifier::ext_equal]
pub struct PMCookiesView {
    pub cookies: Seq<Option<u32>>,
    pub inhibited: bool,
}

impl View for PMCookies {
    type V = PMCookiesView;

    closed spec fn view(&self) -> PMCookiesView {
        PMCookiesView { cookies: self.cookies@, inhibited: self.inhibited }
    }
}

/// The cookie list always has one slot per policy.
pub open spec fn pm_cookies_wf(v: PMCookiesView) -> bool {
    v.cookies.len() == 3
}

impl PMCookies {
    /// A fresh state: no cookies, nothing inhibited.
    pub fn new() -> (r: Self)
        ensures
            pm_cookies_wf(r@),
            !r@.inhibited,
            forall|i: int| 0 <= i < 3 ==> r@.cookies[i] is None,
    {
        let mut cookies: Vec<Option<u32>> = Vec::new();
        cookies.push(None);
        cookies.push(None);
        cookies.push(None);
        PMCookies { cookies, inhibited: false }
    }

    /// Whether an inhibition is in force.
    pub fn get_inhibit_status(&self) -> (r: bool)
        ensures
            r == self@.inhibited,
    {
        self.inhibited
    }

    /// Record the cookies one round of inhibition requests returned, one
    /// per policy in policy order, and mark the inhibition in force.  The
    /// caller has already asked the policy agent for each policy of
    /// `inhibition_policies`, in order.
    pub fn add_inhibit(&mut self, granted: &Vec<u32>)
        requires
            pm_cookies_wf(old(self)@),
            granted@.len() == 3,
        ensures
            pm_cookies_wf(final(self)@),
            final(self)@.inhibited,
            forall|i: int| 0 <= i < 3 ==> final(self)@.cookies[i] == Some(granted@[i]),
    {
        let mut cookies: Vec<Option<u32>> = Vec::new();
        cookies.push(Some(granted[0]));
        cookies.push(Some(granted[1]));
        cookies.push(Some(granted[2]));
        self.cookies = cookies;
        self.inhibited = true;
    }

    /// Release the inhibition: every held cookie is taken out, in policy
    /// order, and the inhibition is marked released.  The caller returns
    /// each taken cookie to the policy agent.
    pub fn release_inhibit(&mut self) -> (r: Vec<u32>)
        requires
            pm_cookies_wf(old(self)@),
        ensures
            pm_cookies_wf(final(self)@),
            !final(self)@.inhibited,
            forall|i: int| 0 <= i < 3 ==> final(self)@.cookies[i] is None,
            r@ == pending_cookies_spec(old(self)@.cookies),
    {
        let ghost orig = self.cookies@;
        let mut r: Vec<u32> = Vec::new();
        let mut i: usize = 0;
        while i < self.cookies.len()
            invariant
                self.cookies@ == orig,
                self.inhibited == old(self).inhibited,
                i <= orig.len(),
                r@ == pending_cookies_spec(orig.take(i as int)),
            decreases orig.len() - i,
        {
            proof {
                assert(orig.take(i + 1).drop_last() =~= orig.take(i as int));
                assert(orig.take(i + 1).last() == orig[i as int]);
            }
            match self.cookies[i] {
                Some(v) => {
                    r.push(v);
                    proof {
                        assert(r@ =~= pending_cookies_spec(orig.take(i + 1)));
                    }
                },
                None => {
                    proof {
                        assert(r@ =~= pending_cookies_spec(orig.take(i + 1)));
                    }
                },
            }
            i += 1;
        }
        proof {
            assert(orig.take(orig.len() as int) =~= orig);
        }
        let mut cookies: Vec<Option<u32>> = Vec::new();
        cookies.push(None);
        cookies.push(None);
        cookies.push(None);
        self.cookies = cookies;
        self.inhibited = false;
        r
    }
}

/// Lexicographic order on character sequences, by scalar value.
pub open spec fn chars_le(a: Seq<char>, b: Seq<char>) -> bool
    decreases a.len(),
{
    if a.len() == 0 {
        true
    } else if b.len() == 0 {
        false
    } else if (a[0] as u32) < (b[0] as u32) {
        true
    } else if (a[0] as u32) > (b[0] as u32) {
        false
    } else {
        chars_le(a.drop_first(), b.drop_first())
    }
}

/// The lines are in lexicographic order.
pub open spec fn lines_sorted(s: Seq<Seq<char>>) -> bool {
    forall|i: int, j: int| 0 <= i < j < s.len() ==> chars_le(#[trigger] s[i], #[trigger] s[j])
}

/// A line list with runs of equal adjacent lines collapsed to their first
/// element.
pub open spec fn dedup_adjacent_spec(s: Seq<Seq<char>>) -> Seq<Seq<char>>
    decreases s.len(),
{
    if s.len() <= 1 {
        s
    } else if s.last() == s.drop_last().last() {
        dedup_adjacent_spec(s.drop_last())
    } else {
        dedup_adjacent_spec(s.drop_last()).push(s.last())
    }
}

/// Relies on `<[String]>::sort_unstable`: it reorders the slice in place
/// into a permutation that is sorted by `String`'s ordering - lexicographic
/// on the UTF-8 bytes, which coincides with lexicographic on the scalar
/// values, since UTF-8 preserves scalar-value order.
#[verifier::external_body]
fn sort_lines(v: &mut Vec<String>)
    ensures
        final(v)@.map_values(|s: String| s@).to_multiset() == old(v)@.map_values(
            |s: String| s@,
        ).to_multiset(),
        lines_sorted(final(v)@.map_values(|s: String| s@)),
{
    v.sort_unstable();
}

/// One "name: reason" line.
pub fn format_inhibition_line(name: &str, reason: &str) -> (r: String)
    ensures
        r@ == name@ + ": "@ + reason@,
{
    let mut r = String::from_str(name);
    r.append(": ");
    r.append(reason);
    proof {
        assert(r@ =~= name@ + ": "@ + reason@);
    }
    r
}

/// The view of every line in a list.
pub open spec fn line_views(s: Seq<String>) -> Seq<Seq<char>> {
    s.map_values(|line: String| line@)
}

impl PMCookies {
    /// Summarise who holds inhibitions and why: one "name: reason" line
    /// per reported pair, sorted, with adjacent duplicates collapsed.
    pub fn get_inhibitions(apps: &Vec<(String, String)>) -> (r: Vec<String>)
    ensures
        exists|sorted: Seq<Seq<char>>|
            {
                &&& lines_sorted(sorted)
                &&& sorted.to_multiset() == Seq::new(
                    apps@.len(),
                    |i: int| apps@[i].0@ + ": "@ + apps@[i].1@,
                ).to_multiset()
                &&& line_views(r@) == dedup_adjacent_spec(sorted)
            },
{
    let ghost wanted = Seq::new(apps@.len(), |i: int| apps@[i].0@ + ": "@ + apps@[i].1@);
    let mut lines: Vec<String> = Vec::new();
    let mut i: usize = 0;
    while i < apps.len()
        invariant
            i <= apps@.len(),
            lines@.len() == i,
            forall|j: int|
                0 <= j < i ==> #[trigger] lines@[j]@ == apps@[j].0@ + ": "@ + apps@[j].1@,
        decreases apps@.len() - i,
    {
        let line = format_inhibition_line(apps[i].0.as_str(), apps[i].1.as_str());
        lines.push(line);
        i += 1;
    }
    proof {
        assert forall|j: int| 0 <= j < apps@.len() implies line_views(lines@)[j] == wanted[j] by {
            assert(line_views(lines@)[j] == lines@[j]@);
        }
        assert(line_views(lines@) =~= wanted);
    }
    sort_lines(&mut lines);
    let ghost sorted = line_views(lines@);
    let mut r: Vec<String> = Vec::new();
    let mut k: usize = 0;
    while k < lines.len()
        invariant
            k <= lines@.len(),
            sorted == line_views(lines@),
            line_views(r@) == dedup_adjacent_spec(sorted.take(k as int)),
            k > 0 ==> r@.len() > 0 && r@.last()@ == sorted[k - 1],
        decreases lines@.len() - k,
    {
        proof {
            assert(sorted.take(k + 1).drop_last() =~= sorted.take(k as int));
            assert(sorted.take(k + 1).last() == sorted[k as int]);
        }
        let keep: bool = if r.len() == 0 {
            true
        } else {
            let last_idx: usize = r.len() - 1;
            !string_eq(&r[last_idx], &lines[k])
        };
        if keep {
            let line = lines[k].clone();
            r.push(line);
            proof {
                assert(line_views(r@) =~= dedup_adjacent_spec(sorted.take(k + 1)));
            }
        } else {
            proof {
                assert(sorted.take(k as int).len() > 0);
                assert(sorted.take(k as int).last() == sorted[k - 1]);
                assert(line_views(r@) =~= dedup_adjacent_spec(sorted.take(k + 1)));
            }
        }
        k += 1;
    }
    proof {
        assert(sorted.take(sorted.len() as int) =~= sorted);
        assert(wanted =~= Seq::new(apps@.len(), |i: int| apps@[i].0@ + ": "@ + apps@[i].1@));
        assert(lines_sorted(sorted) && sorted.to_multiset() == Seq::new(
            apps@.len(),
            |i: int| apps@[i].0@ + ": "@ + apps@[i].1@,
        ).to_multiset() && line_views(r@) == dedup_adjacent_spec(sorted));
    }
    r
}
}

/// Character-for-character equality of two owned strings.
fn string_eq(a: &String, b: &String) -> (r: bool)
    ensures
        r == (a@ == b@),
{
    crate::strutil::str_eq(a.as_str(), b.as_str())
}

} // verus!
