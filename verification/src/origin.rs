//! The origin matcher: which hosts an allow-list of domain suffixes admits.

use vstd::prelude::*;
use crate::suffix::ends_with;

verus! {

/// The strings that occur in `list`.
pub open spec fn entries(list: Seq<String>) -> Set<Seq<char>> {
    Set::new(|entry: Seq<char>| exists|i: int| 0 <= i < list.len() && #[trigger] list[i]@ == entry)
}

/// An optional list read as an optional set: no list stays no set.
pub open spec fn suffix_set(list: Option<Vec<String>>) -> Option<Set<Seq<char>>> {
    match list {
        Some(list) => Some(entries(list@)),
        None => None,
    }
}

/// [`suffix_set`] of a list that is borrowed.
pub open spec fn borrowed_suffix_set(list: Option<&Vec<String>>) -> Option<Set<Seq<char>>> {
    match list {
        Some(list) => Some(entries(list@)),
        None => None,
    }
}

/// Whether some member of `suffixes` is a suffix of `host`, compared
/// character by character and case-sensitively. The empty set admits no
/// host; a set that holds the empty string admits every host.
pub open spec fn admits(suffixes: Set<Seq<char>>, host: Seq<char>) -> bool {
    exists|suffix: Seq<char>| #[trigger] suffixes.contains(suffix) && suffix.is_suffix_of(host)
}

/// The rule itself. Without a set nothing is restricted and every host
/// passes. With one, a host passes exactly when the set admits it.
pub open spec fn allows(allowed: Option<Set<Seq<char>>>, host: Seq<char>) -> bool {
    match allowed {
        Some(suffixes) => admits(suffixes, host),
        None => true,
    }
}

/// The host a page counts as being on: a page without a host counts as
/// being on the empty host.
pub open spec fn host_or_empty(host: Option<Seq<char>>) -> Seq<char> {
    match host {
        Some(host) => host,
        None => Seq::empty(),
    }
}

/// [`host_or_empty`] of a host part that is borrowed.
pub open spec fn host_text(host: Option<&str>) -> Seq<char> {
    match host {
        Some(host) => host@,
        None => Seq::empty(),
    }
}

/// A host that passes keeps passing under any name put in front of it:
/// the rule looks at the end of a host and at nothing else.
pub proof fn lemma_longer_host_passes(
    allowed: Option<Set<Seq<char>>>,
    front: Seq<char>,
    host: Seq<char>,
)
    requires
        allows(allowed, host),
    ensures
        allows(allowed, front + host),
{
    if let Some(suffixes) = allowed {
        let suffix = choose|suffix: Seq<char>|
            #[trigger] suffixes.contains(suffix) && suffix.is_suffix_of(host);
        let longer = front + host;
        assert(suffix =~= longer.subrange(longer.len() - suffix.len(), longer.len() as int));
        assert(suffixes.contains(suffix) && suffix.is_suffix_of(longer));
    }
}

/// A page without a host passes a configured list only where the list
/// holds the empty suffix: under a list of proper suffixes it is refused.
pub proof fn lemma_hostless_page(suffixes: Set<Seq<char>>)
    ensures
        allows(Some(suffixes), host_or_empty(None)) <==> suffixes.contains(Seq::empty()),
{
    let nothing = Seq::<char>::empty();
    if suffixes.contains(nothing) {
        assert(nothing.is_suffix_of(nothing));
    }
    if admits(suffixes, nothing) {
        let suffix = choose|suffix: Seq<char>|
            #[trigger] suffixes.contains(suffix) && suffix.is_suffix_of(nothing);
        assert(suffix =~= nothing);
    }
}

/// A longer list allows whatever a shorter one allows.
pub proof fn lemma_more_suffixes_allow_more(
    fewer: Set<Seq<char>>,
    more: Set<Seq<char>>,
    host: Seq<char>,
)
    requires
        fewer.subset_of(more),
        allows(Some(fewer), host),
    ensures
        allows(Some(more), host),
{
    let suffix = choose|suffix: Seq<char>|
        #[trigger] fewer.contains(suffix) && suffix.is_suffix_of(host);
    assert(more.contains(suffix) && suffix.is_suffix_of(host));
}

/// Whether some entry of `list` is a suffix of `host`.
pub fn any_suffix(host: &str, list: &Vec<String>) -> (found: bool)
    ensures
        found == allows(Some(entries(list@)), host@),
        found <==> exists|i: int| 0 <= i < list.len() && (#[trigger] list[i])@.is_suffix_of(host@),
{
    let mut i: usize = 0;
    while i < list.len()
        invariant
            i <= list.len(),
            forall|j: int| 0 <= j < i ==> !(#[trigger] list[j])@.is_suffix_of(host@),
        decreases list.len() - i,
    {
        if ends_with(host, list[i].as_str()) {
            assert(entries(list@).contains(list[i as int]@));
            return true;
        }
        i += 1;
    }
    false
}

/// Decides whether `host` may pass under `allowed_suffixes`.
///
/// Absent a list the answer is always yes: the default is to permit, and a
/// caller that wants a closed door has to configure one.
pub fn is_allowed(host: &str, allowed_suffixes: Option<&Vec<String>>) -> (allowed: bool)
    ensures
        allowed_suffixes is None ==> allowed,
        allowed_suffixes matches Some(list) ==> (allowed <==> exists|i: int|
            0 <= i < list.len() && (#[trigger] list[i])@.is_suffix_of(host@)),
        allowed == allows(borrowed_suffix_set(allowed_suffixes), host@),
{
    match allowed_suffixes {
        Some(list) => any_suffix(host, list),
        None => true,
    }
}

/// The host that is put to the matcher for an address whose host part is
/// `host`.
pub fn effective_host<'a>(host: Option<&'a str>) -> (effective: &'a str)
    ensures
        effective@ == host_text(host),
{
    proof {
        reveal_strlit("");
        assert(""@ =~= Seq::empty());
    }
    match host {
        Some(host) => host,
        None => "",
    }
}

/// An allow-list of domain suffixes, fixed when it is made.
#[derive(Clone, Debug, PartialEq, Eq)]
pub struct OriginMatcher {
    allowed_suffixes: Option<Vec<String>>,
}

impl View for OriginMatcher {
    type V = Option<Set<Seq<char>>>;

    closed spec fn view(&self) -> Option<Set<Seq<char>>> {
        suffix_set(self.allowed_suffixes)
    }
}

impl OriginMatcher {
    /// A matcher over `allowed_suffixes`; `None` restricts nothing.
    pub fn new(allowed_suffixes: Option<Vec<String>>) -> (matcher: Self)
        ensures
            matcher@ == suffix_set(allowed_suffixes),
    {
        OriginMatcher { allowed_suffixes }
    }

    /// Whether a list is configured at all.
    pub fn is_restricted(&self) -> (restricted: bool)
        ensures
            restricted == self@.is_some(),
    {
        self.allowed_suffixes.is_some()
    }

    /// The list it was made over.
    pub fn allowed_suffixes(&self) -> (list: Option<&Vec<String>>)
        ensures
            self@ == borrowed_suffix_set(list),
    {
        self.allowed_suffixes.as_ref()
    }

    /// Whether `host` may pass.
    pub fn is_allowed(&self, host: &str) -> (allowed: bool)
        ensures
            allowed == allows(self@, host@),
            self@ is None ==> allowed,
    {
        is_allowed(host, self.allowed_suffixes.as_ref())
    }
}

} // verus!
