use vstd::prelude::*;
use vstd::string::StrSliceExecFns;
use vstd::utf8::encode_utf8;

verus! {

/// One entry of a directory: a folder or a file.
#[derive(Clone, Debug)]
pub struct DirectoryEntry {
    pub name: String,
    pub path: String,
    pub is_directory: bool,
}

/// The lowercase form of `text`, as `str::to_lowercase` of the standard
/// library gives it.
pub uninterp spec fn lowercased(text: Seq<char>) -> Seq<char>;

/// Calls `str::to_lowercase`. Trusted: the result depends on the text alone.
#[verifier::external_body]
fn to_lowercase(text: &str) -> (lower: String)
    ensures
        lower@ == lowercased(text@),
{
    text.to_lowercase()
}

/// Byte strings in dictionary order, a prefix before what it begins: the
/// order in which strings compare.
pub open spec fn lex_le(a: Seq<u8>, b: Seq<u8>) -> bool
    decreases a.len(),
{
    if a.len() == 0 {
        true
    } else if b.len() == 0 {
        false
    } else if a[0] != b[0] {
        a[0] < b[0]
    } else {
        lex_le(a.drop_first(), b.drop_first())
    }
}

/// An entry is hidden where its name begins with a dot.
pub open spec fn is_hidden(entry: DirectoryEntry) -> bool {
    entry.name@.len() > 0 && entry.name@[0] == '.'
}

/// The name by which an entry is ordered: in lowercase, as UTF-8.
pub open spec fn folded_name(entry: DirectoryEntry) -> Seq<u8> {
    encode_utf8(lowercased(entry.name@))
}

/// `a` may stand before `b`: a folder before a file, and within a kind the
/// names in dictionary order, case aside.
pub open spec fn may_precede(a: DirectoryEntry, b: DirectoryEntry) -> bool {
    if a.is_directory == b.is_directory {
        lex_le(folded_name(a), folded_name(b))
    } else {
        a.is_directory
    }
}

/// The entry at `p` belongs before the one at `q`: it is ordered strictly
/// before it, or the two are ordered alike and `p` came first.
pub open spec fn belongs_before(input: Seq<DirectoryEntry>, p: int, q: int) -> bool {
    !may_precede(input[q], input[p]) || (may_precede(input[p], input[q]) && p < q)
}

/// `listing` holds the entries of `input` that are not hidden, each once,
/// in order; `order` says from which place of `input` each one comes.
pub open spec fn is_listing(
    input: Seq<DirectoryEntry>,
    order: Seq<int>,
    listing: Seq<DirectoryEntry>,
) -> bool {
    &&& order.len() == listing.len()
    &&& forall|i: int|
        0 <= i < order.len() ==> 0 <= #[trigger] order[i] < input.len() && !is_hidden(
            input[order[i]],
        ) && listing[i] == input[order[i]]
    &&& forall|i: int, j: int|
        0 <= i < j < order.len() ==> belongs_before(input, #[trigger] order[i], #[trigger] order[j])
    &&& forall|p: int|
        0 <= p < input.len() && !is_hidden(#[trigger] input[p]) ==> order.contains(p)
}

pub proof fn lemma_lex_total(a: Seq<u8>, b: Seq<u8>)
    ensures
        lex_le(a, b) || lex_le(b, a),
    decreases a.len(),
{
    if a.len() > 0 && b.len() > 0 && a[0] == b[0] {
        lemma_lex_total(a.drop_first(), b.drop_first());
    }
}

pub proof fn lemma_lex_transitive(a: Seq<u8>, b: Seq<u8>, c: Seq<u8>)
    requires
        lex_le(a, b),
        lex_le(b, c),
    ensures
        lex_le(a, c),
    decreases a.len(),
{
    if a.len() > 0 && b.len() > 0 && c.len() > 0 && a[0] == b[0] && b[0] == c[0] {
        lemma_lex_transitive(a.drop_first(), b.drop_first(), c.drop_first());
    }
}

/// Of two entries one may always precede the other.
pub proof fn lemma_order_total(a: DirectoryEntry, b: DirectoryEntry)
    ensures
        may_precede(a, b) || may_precede(b, a),
{
    lemma_lex_total(folded_name(a), folded_name(b));
}

pub proof fn lemma_order_transitive(a: DirectoryEntry, b: DirectoryEntry, c: DirectoryEntry)
    requires
        may_precede(a, b),
        may_precede(b, c),
    ensures
        may_precede(a, c),
{
    if a.is_directory == b.is_directory && b.is_directory == c.is_directory {
        lemma_lex_transitive(folded_name(a), folded_name(b), folded_name(c));
    }
}

fn bytes_le(a: &Vec<u8>, b: &Vec<u8>) -> (r: bool)
    ensures
        r == lex_le(a@, b@),
{
    let mut i: usize = 0;
    assert(a@.skip(0) == a@ && b@.skip(0) == b@);
    while i < a.len() && i < b.len()
        invariant
            i <= a.len(),
            i <= b.len(),
            lex_le(a@, b@) == lex_le(a@.skip(i as int), b@.skip(i as int)),
        decreases a.len() - i,
    {
        assert(a@.skip(i as int)[0] == a@[i as int] && b@.skip(i as int)[0] == b@[i as int]);
        if a[i] != b[i] {
            return a[i] < b[i];
        }
        assert(a@.skip(i as int).drop_first() == a@.skip(i + 1));
        assert(b@.skip(i as int).drop_first() == b@.skip(i + 1));
        i = i + 1;
    }
    i >= a.len()
}

fn hidden(entry: &DirectoryEntry) -> (r: bool)
    ensures
        r == is_hidden(*entry),
{
    let name = entry.name.as_str();
    !name.is_empty() && name.get_char(0) == '.'
}

fn fold(entry: &DirectoryEntry) -> (key: Vec<u8>)
    ensures
        key@ == folded_name(*entry),
{
    let lower = to_lowercase(entry.name.as_str());
    lower.as_str().as_bytes_vec()
}

fn precedes(a: &DirectoryEntry, a_key: &Vec<u8>, b: &DirectoryEntry, b_key: &Vec<u8>) -> (r: bool)
    requires
        a_key@ == folded_name(*a),
        b_key@ == folded_name(*b),
    ensures
        r == may_precede(*a, *b),
{
    if a.is_directory == b.is_directory {
        bytes_le(a_key, b_key)
    } else {
        a.is_directory
    }
}

/// The place at which `entry` goes into `listing`: behind every entry that
/// may precede it, so that entries ordered alike keep the order they came in.
fn place_of(
    listing: &Vec<DirectoryEntry>,
    keys: &Vec<Vec<u8>>,
    entry: &DirectoryEntry,
    key: &Vec<u8>,
) -> (at: usize)
    requires
        keys.len() == listing.len(),
        forall|i: int| 0 <= i < keys.len() ==> (#[trigger] keys[i])@ == folded_name(listing[i]),
        key@ == folded_name(*entry),
    ensures
        at <= listing.len(),
        forall|i: int| 0 <= i < at ==> may_precede(#[trigger] listing[i], *entry),
        at < listing.len() ==> !may_precede(listing[at as int], *entry),
{
    let mut at: usize = 0;
    while at < listing.len() && precedes(&listing[at], &keys[at], entry, key)
        invariant
            at <= listing.len(),
            keys.len() == listing.len(),
            forall|i: int| 0 <= i < keys.len() ==> (#[trigger] keys[i])@ == folded_name(listing[i]),
            key@ == folded_name(*entry),
            forall|i: int| 0 <= i < at ==> may_precede(#[trigger] listing[i], *entry),
        decreases listing.len() - at,
    {
        at = at + 1;
    }
    at
}

/// Putting the entry at place `k` of `input` into a listing of the places
/// before `k`, behind everything that may precede it, gives a listing of the
/// places up to `k`.
proof fn lemma_insert_keeps_listing(
    input: Seq<DirectoryEntry>,
    k: int,
    order: Seq<int>,
    listing: Seq<DirectoryEntry>,
    at: int,
)
    requires
        0 <= k < input.len(),
        !is_hidden(input[k]),
        is_listing(input.take(k), order, listing),
        0 <= at <= listing.len(),
        forall|i: int| 0 <= i < at ==> may_precede(#[trigger] listing[i], input[k]),
        at < listing.len() ==> !may_precede(listing[at], input[k]),
    ensures
        is_listing(input.take(k + 1), order.insert(at, k), listing.insert(at, input[k])),
{
    let before = input.take(k);
    let now = input.take(k + 1);
    let grown = order.insert(at, k);
    let held = listing.insert(at, input[k]);
    assert forall|j: int| at <= j < listing.len() implies !may_precede(
        #[trigger] listing[j],
        input[k],
    ) by {
        if at < j && may_precede(listing[j], input[k]) {
            assert(belongs_before(before, order[at], order[j]));
            lemma_order_total(listing[at], listing[j]);
            lemma_order_transitive(listing[at], listing[j], input[k]);
        }
    }
    assert forall|i: int| 0 <= i < grown.len() implies 0 <= #[trigger] grown[i] < now.len()
        && !is_hidden(now[grown[i]]) && held[i] == now[grown[i]] by {
        if i < at {
            assert(grown[i] == order[i]);
        } else if i > at {
            assert(grown[i] == order[i - 1]);
        }
    }
    assert forall|i: int, j: int| 0 <= i < j < grown.len() implies belongs_before(
        now,
        #[trigger] grown[i],
        #[trigger] grown[j],
    ) by {
        let p = if i < at {
            i
        } else {
            i - 1
        };
        let q = if j < at {
            j
        } else {
            j - 1
        };
        if i == at {
            assert(grown[j] == order[q]);
            assert(!may_precede(listing[q], input[k]));
        } else if j == at {
            assert(grown[i] == order[p]);
            assert(may_precede(listing[p], input[k]));
            assert(order[p] < k);
        } else {
            assert(grown[i] == order[p] && grown[j] == order[q]);
            assert(belongs_before(before, order[p], order[q]));
        }
    }
    assert forall|p: int| 0 <= p < now.len() && !is_hidden(#[trigger] now[p]) implies grown.contains(
        p,
    ) by {
        if p == k {
            assert(grown[at] == k);
        } else {
            assert(!is_hidden(before[p]));
            assert(order.contains(p));
            let i = choose|i: int| 0 <= i < order.len() && order[i] == p;
            if i < at {
                assert(grown[i] == p);
            } else {
                assert(grown[i + 1] == p);
            }
        }
    }
}

/// Leaving out a hidden entry at place `k` turns a listing of the places
/// before `k` into one of the places up to `k`.
proof fn lemma_skip_keeps_listing(
    input: Seq<DirectoryEntry>,
    k: int,
    order: Seq<int>,
    listing: Seq<DirectoryEntry>,
)
    requires
        0 <= k < input.len(),
        is_hidden(input[k]),
        is_listing(input.take(k), order, listing),
    ensures
        is_listing(input.take(k + 1), order, listing),
{
    let before = input.take(k);
    let now = input.take(k + 1);
    assert forall|i: int| 0 <= i < order.len() implies 0 <= #[trigger] order[i] < now.len()
        && !is_hidden(now[order[i]]) && listing[i] == now[order[i]] by {
        assert(now[order[i]] == before[order[i]]);
    }
    assert forall|i: int, j: int| 0 <= i < j < order.len() implies belongs_before(
        now,
        #[trigger] order[i],
        #[trigger] order[j],
    ) by {
        assert(belongs_before(before, order[i], order[j]));
    }
    assert forall|p: int| 0 <= p < now.len() && !is_hidden(#[trigger] now[p]) implies order.contains(
        p,
    ) by {
        assert(!is_hidden(before[p]));
    }
}

/// Arranges the entries read from a directory for display: hidden entries
/// are left out, folders come before files, and within each kind the names
/// run in dictionary order, case aside; entries ordered alike keep the order
/// in which they were read.
pub fn list_directory(entries: Vec<DirectoryEntry>) -> (listing: Vec<DirectoryEntry>)
    ensures
        exists|order: Seq<int>| is_listing(entries@, order, listing@),
{
    let mut listing: Vec<DirectoryEntry> = Vec::new();
    let mut keys: Vec<Vec<u8>> = Vec::new();
    let ghost mut order: Seq<int> = Seq::empty();
    let mut k: usize = 0;
    assert(is_listing(entries@.take(0), order, listing@));
    while k < entries.len()
        invariant
            k <= entries.len(),
            keys.len() == listing.len(),
            forall|i: int| 0 <= i < keys.len() ==> (#[trigger] keys[i])@ == folded_name(listing[i]),
            is_listing(entries@.take(k as int), order, listing@),
        decreases entries.len() - k,
    {
        let entry = &entries[k];
        if hidden(entry) {
            proof {
                lemma_skip_keeps_listing(entries@, k as int, order, listing@);
            }
        } else {
            let key = fold(entry);
            let at = place_of(&listing, &keys, entry, &key);
            let copy = DirectoryEntry {
                name: entry.name.clone(),
                path: entry.path.clone(),
                is_directory: entry.is_directory,
            };
            proof {
                lemma_insert_keeps_listing(entries@, k as int, order, listing@, at as int);
                order = order.insert(at as int, k as int);
            }
            listing.insert(at, copy);
            keys.insert(at, key);
        }
        k = k + 1;
    }
    assert(entries@.take(k as int) == entries@);
    listing
}

pub proof fn lemma_lex_reflexive(a: Seq<u8>)
    ensures
        lex_le(a, a),
    decreases a.len(),
{
    if a.len() > 0 {
        lemma_lex_reflexive(a.drop_first());
    }
}

/// No two places belong before each other, and none before itself.
pub proof fn lemma_belongs_before_is_one_way(input: Seq<DirectoryEntry>, p: int, q: int)
    ensures
        !(belongs_before(input, p, q) && belongs_before(input, q, p)),
{
    lemma_order_total(input[p], input[q]);
    lemma_lex_reflexive(folded_name(input[p]));
}

proof fn lemma_listings_agree_up_to(
    input: Seq<DirectoryEntry>,
    first: Seq<int>,
    a: Seq<DirectoryEntry>,
    second: Seq<int>,
    b: Seq<DirectoryEntry>,
    n: int,
)
    requires
        is_listing(input, first, a),
        is_listing(input, second, b),
        0 <= n <= first.len(),
        n <= second.len(),
    ensures
        forall|t: int| 0 <= t < n ==> first[t] == second[t],
    decreases n,
{
    if n > 0 {
        lemma_listings_agree_up_to(input, first, a, second, b, n - 1);
        let i = n - 1;
        let x = first[i];
        let y = second[i];
        if x != y {
            assert(second.contains(x));
            let j = choose|j: int| 0 <= j < second.len() && second[j] == x;
            if j < i {
                lemma_belongs_before_is_one_way(input, first[j], first[i]);
            }
            assert(first.contains(y));
            let m = choose|m: int| 0 <= m < first.len() && first[m] == y;
            if m < i {
                lemma_belongs_before_is_one_way(input, second[m], second[i]);
            }
            assert(belongs_before(input, second[i], second[j]));
            assert(belongs_before(input, first[i], first[m]));
            lemma_belongs_before_is_one_way(input, x, y);
        }
    }
}

/// The entries of a directory have one listing and no other: what
/// `list_directory` returns is fixed by what it is given.
pub proof fn lemma_listing_is_unique(
    input: Seq<DirectoryEntry>,
    first: Seq<int>,
    a: Seq<DirectoryEntry>,
    second: Seq<int>,
    b: Seq<DirectoryEntry>,
)
    requires
        is_listing(input, first, a),
        is_listing(input, second, b),
    ensures
        first == second,
        a == b,
{
    if first.len() <= second.len() {
        lemma_listings_agree_up_to(input, first, a, second, b, first.len() as int);
        if first.len() < second.len() {
            let x = second[first.len() as int];
            assert(first.contains(x));
            let j = choose|j: int| 0 <= j < first.len() && first[j] == x;
            assert(belongs_before(input, second[j], second[first.len() as int]));
            lemma_belongs_before_is_one_way(input, x, x);
        }
    } else {
        lemma_listings_agree_up_to(input, first, a, second, b, second.len() as int);
        let x = first[second.len() as int];
        assert(second.contains(x));
        let j = choose|j: int| 0 <= j < second.len() && second[j] == x;
        assert(belongs_before(input, first[j], first[second.len() as int]));
        lemma_belongs_before_is_one_way(input, x, x);
    }
    assert(first =~= second);
    assert forall|i: int| 0 <= i < a.len() implies a[i] == b[i] by {
        assert(a[i] == input[first[i]] && b[i] == input[second[i]]);
    }
    assert(a =~= b);
}

/// In a listing every folder stands before every file.
pub proof fn lemma_folders_come_first(
    input: Seq<DirectoryEntry>,
    order: Seq<int>,
    listing: Seq<DirectoryEntry>,
    i: int,
    j: int,
)
    requires
        is_listing(input, order, listing),
        0 <= i < j < listing.len(),
        listing[j].is_directory,
    ensures
        listing[i].is_directory,
{
    assert(belongs_before(input, order[i], order[j]));
}

} // verus!
