use vstd::prelude::*;
use vstd::string::*;
use vstd::std_specs::convert::FromSpecImpl;

verus! {

/// A list of torrent hashes, as sent to the endpoints that act on several torrents at once.
pub struct Hash {
    hashes: Vec<String>,
}

impl View for Hash {
    type V = Seq<Seq<char>>;

    closed spec fn view(&self) -> Seq<Seq<char>> {
        self.hashes@.map_values(|h: String| h@)
    }
}

/// The hashes of `hs` in order, with one `'|'` between each two neighbours.
pub open spec fn bar_joined(hs: Seq<Seq<char>>) -> Seq<char>
    decreases hs.len(),
{
    if hs.len() == 0 {
        Seq::empty()
    } else if hs.len() == 1 {
        hs[0]
    } else {
        bar_joined(hs.drop_last()) + seq!['|'] + hs.last()
    }
}

/// The query string that names the hashes `hs`: `?hashes=` followed by the hashes joined by
/// `'|'`; for an empty list the text `?hashes` alone.
pub open spec fn hashes_query(hs: Seq<Seq<char>>) -> Seq<char> {
    if hs.len() == 0 {
        "?hashes"@
    } else {
        "?hashes="@ + bar_joined(hs)
    }
}

impl Hash {
    /// The query string that selects the torrents of this list, e.g. `?hashes=h1|h2|h3`.
    pub fn url(&self) -> (r: String)
        ensures
            r@ == hashes_query(self@),
    {
        proof {
            reveal_strlit("?hashes");
            reveal_strlit("?hashes=");
            reveal_strlit("=");
        }
        let mut url = String::from_str("?hashes");
        let n = self.hashes.len();
        if n == 0 {
            return url;
        }
        url.append("=");
        let ghost hs = self@;
        let mut i: usize = 0;
        while i < n
            invariant
                n == self.hashes@.len(),
                hs == self@,
                hs.len() == n,
                0 <= i <= n,
                i == 0 ==> url@ == "?hashes="@,
                i > 0 ==> url@ == "?hashes="@ + bar_joined(hs.take(i as int)),
            decreases n - i,
        {
            if i > 0 {
                url.append("|");
            }
            url.append(self.hashes[i].as_str());
            proof {
                assert(hs[i as int] == self.hashes@[i as int]@);
                assert(hs.take(i + 1).drop_last() =~= hs.take(i as int));
                assert(hs.take(i + 1).last() == hs[i as int]);
                if i == 0 {
                    assert(bar_joined(hs.take(1)) == hs[0]);
                } else {
                    reveal_strlit("|");
                    assert("|"@ =~= seq!['|']);
                    assert(bar_joined(hs.take(i + 1)) == bar_joined(hs.take(i as int)) + seq!['|']
                        + hs[i as int]);
                    assert(url@ =~= "?hashes="@ + bar_joined(hs.take(i + 1)));
                }
            }
            i = i + 1;
        }
        assert(hs.take(n as int) =~= hs);
        url
    }
}

impl From<Vec<String>> for Hash {
    /// Takes the list as it is.
    fn from(e: Vec<String>) -> (r: Hash)
        ensures
            r@ == e@.map_values(|h: String| h@),
    {
        Hash { hashes: e }
    }
}

impl FromSpecImpl<Vec<String>> for Hash {
    open spec fn obeys_from_spec() -> bool {
        true
    }

    closed spec fn from_spec(e: Vec<String>) -> Hash {
        Hash { hashes: e }
    }
}

/// Any hash list that holds `h` alone; the `from` of each single-hash conversion states the list
/// it returns in its own `ensures`.
pub open spec fn single_hash_list(h: Seq<char>) -> Hash {
    choose|l: Hash| l@ == seq![h]
}

impl<'a> From<&'a str> for Hash {
    /// A list of the one hash `e`.
    fn from(e: &'a str) -> (r: Hash)
        ensures
            r@ == seq![e@],
    {
        let mut hashes: Vec<String> = Vec::new();
        hashes.push(e.to_owned());
        let r = Hash { hashes };
        assert(r@ =~= seq![e@]);
        r
    }
}

impl<'a> FromSpecImpl<&'a str> for Hash {
    open spec fn obeys_from_spec() -> bool {
        false
    }

    open spec fn from_spec(e: &'a str) -> Hash {
        single_hash_list(e@)
    }
}

impl<'a> From<&'a String> for Hash {
    /// A list of the one hash `e`.
    fn from(e: &'a String) -> (r: Hash)
        ensures
            r@ == seq![e@],
    {
        let mut hashes: Vec<String> = Vec::new();
        hashes.push(e.clone());
        let r = Hash { hashes };
        assert(r@ =~= seq![e@]);
        r
    }
}

impl<'a> FromSpecImpl<&'a String> for Hash {
    open spec fn obeys_from_spec() -> bool {
        false
    }

    open spec fn from_spec(e: &'a String) -> Hash {
        single_hash_list(e@)
    }
}

impl From<String> for Hash {
    /// A list of the one hash `e`.
    fn from(e: String) -> (r: Hash)
        ensures
            r@ == seq![e@],
    {
        let ghost ev = e@;
        let mut hashes: Vec<String> = Vec::new();
        hashes.push(e);
        let r = Hash { hashes };
        assert(r@ =~= seq![ev]);
        r
    }
}

impl FromSpecImpl<String> for Hash {
    open spec fn obeys_from_spec() -> bool {
        false
    }

    open spec fn from_spec(e: String) -> Hash {
        single_hash_list(e@)
    }
}

impl<'a> From<Vec<&'a str>> for Hash {
    /// The same hashes, in the same order, each copied into its own string.
    fn from(e: Vec<&'a str>) -> (r: Hash)
        ensures
            r@ == e@.map_values(|h: &str| h@),
    {
        let mut hashes: Vec<String> = Vec::new();
        let n = e.len();
        let mut i: usize = 0;
        while i < n
            invariant
                n == e@.len(),
                0 <= i <= n,
                hashes@.len() == i,
                forall|j: int| 0 <= j < i ==> #[trigger] hashes@[j]@ == e@[j]@,
            decreases n - i,
        {
            hashes.push(e[i].to_owned());
            i = i + 1;
        }
        let r = Hash { hashes };
        assert(r@ =~= e@.map_values(|h: &str| h@));
        r
    }
}

impl<'a> FromSpecImpl<Vec<&'a str>> for Hash {
    open spec fn obeys_from_spec() -> bool {
        false
    }

    open spec fn from_spec(e: Vec<&'a str>) -> Hash {
        choose|l: Hash| l@ == e@.map_values(|h: &str| h@)
    }
}

/// Every hash of `hs` in order, each followed by a `'|'`.
pub open spec fn bar_terminated(hs: Seq<Seq<char>>) -> Seq<char>
    decreases hs.len(),
{
    if hs.len() == 0 {
        Seq::empty()
    } else {
        bar_terminated(hs.drop_last()) + hs.last() + seq!['|']
    }
}

proof fn lemma_bar_terminated_is_joined_plus_bar(hs: Seq<Seq<char>>)
    requires
        hs.len() > 0,
    ensures
        bar_terminated(hs) == bar_joined(hs) + seq!['|'],
    decreases hs.len(),
{
    if hs.len() == 1 {
        assert(hs.drop_last() =~= Seq::<Seq<char>>::empty());
        assert(bar_terminated(hs.drop_last()) == Seq::<char>::empty());
        assert(bar_terminated(hs) =~= hs[0] + seq!['|']);
    } else {
        lemma_bar_terminated_is_joined_plus_bar(hs.drop_last());
        assert(bar_terminated(hs) =~= bar_joined(hs) + seq!['|']);
    }
}

/// The query names the hashes exactly as writing `?hashes=`, then each hash followed by `'|'`,
/// and dropping the last character would: for a non-empty list the dropped character is the
/// final `'|'`, for an empty list it is the `'='`.
pub proof fn lemma_query_drops_last_of_bar_terminated(hs: Seq<Seq<char>>)
    ensures
        hashes_query(hs) == ("?hashes="@ + bar_terminated(hs)).drop_last(),
{
    reveal_strlit("?hashes");
    reveal_strlit("?hashes=");
    if hs.len() == 0 {
        assert(("?hashes="@ + bar_terminated(hs)).drop_last() =~= "?hashes"@);
    } else {
        lemma_bar_terminated_is_joined_plus_bar(hs);
        assert(("?hashes="@ + bar_terminated(hs)).drop_last() =~= "?hashes="@ + bar_joined(hs));
    }
}

/// The query for a single hash `h` is `?hashes=` followed by `h`.
pub proof fn lemma_single_hash_query(h: Seq<char>)
    ensures
        hashes_query(seq![h]) == "?hashes="@ + h,
{
}

/// No character of `s` is a `'|'`.
pub open spec fn bar_free(s: Seq<char>) -> bool {
    forall|k: int| 0 <= k < s.len() ==> s[k] != '|'
}

proof fn lemma_bar_joined_injective(a: Seq<Seq<char>>, b: Seq<Seq<char>>)
    requires
        a.len() > 0,
        b.len() > 0,
        forall|i: int| 0 <= i < a.len() ==> bar_free(#[trigger] a[i]),
        forall|i: int| 0 <= i < b.len() ==> bar_free(#[trigger] b[i]),
        bar_joined(a) == bar_joined(b),
    ensures
        a == b,
    decreases a.len() + b.len(),
{
    let j = bar_joined(a);
    if a.len() == 1 && b.len() == 1 {
        assert(a =~= b);
    } else if a.len() == 1 {
        // `j` is bar-free as the single hash of `a`, but `b` puts a bar inside it.
        let p = bar_joined(b.drop_last()).len();
        assert(bar_joined(b)[p as int] == '|');
        assert(bar_free(a[0]));
        assert(false);
    } else if b.len() == 1 {
        let p = bar_joined(a.drop_last()).len();
        assert(bar_joined(a)[p as int] == '|');
        assert(bar_free(b[0]));
        assert(false);
    } else {
        let pa = bar_joined(a.drop_last());
        let pb = bar_joined(b.drop_last());
        let la = a.last();
        let lb = b.last();
        assert(bar_free(la));
        assert(bar_free(lb));
        assert(j == pa + seq!['|'] + la);
        assert(j == pb + seq!['|'] + lb);
        if la.len() < lb.len() {
            let k = (j.len() - la.len() - 1) as int;
            assert(j[k] == '|');
            assert(lb[k - pb.len() - 1] == j[k]);
            assert(false);
        } else if lb.len() < la.len() {
            let k = (j.len() - lb.len() - 1) as int;
            assert(j[k] == '|');
            assert(la[k - pa.len() - 1] == j[k]);
            assert(false);
        }
        assert(la =~= j.subrange(j.len() - la.len(), j.len() as int));
        assert(lb =~= j.subrange(j.len() - lb.len(), j.len() as int));
        assert(pa =~= j.subrange(0, pa.len() as int));
        assert(pb =~= j.subrange(0, pb.len() as int));
        assert forall|i: int| 0 <= i < a.drop_last().len() implies bar_free(#[trigger] a.drop_last()[i]) by {
            assert(bar_free(a[i]));
        }
        assert forall|i: int| 0 <= i < b.drop_last().len() implies bar_free(#[trigger] b.drop_last()[i]) by {
            assert(bar_free(b[i]));
        }
        lemma_bar_joined_injective(a.drop_last(), b.drop_last());
        assert(a =~= a.drop_last().push(la));
        assert(b =~= b.drop_last().push(lb));
    }
}

/// For non-empty lists of hashes that hold no `'|'` (hex digests never do), the query string
/// determines the list: two such lists with the same query are the same list.
pub proof fn lemma_query_determines_hashes(a: Seq<Seq<char>>, b: Seq<Seq<char>>)
    requires
        a.len() > 0,
        b.len() > 0,
        forall|i: int| 0 <= i < a.len() ==> bar_free(#[trigger] a[i]),
        forall|i: int| 0 <= i < b.len() ==> bar_free(#[trigger] b[i]),
        hashes_query(a) == hashes_query(b),
    ensures
        a == b,
{
    reveal_strlit("?hashes=");
    let q = hashes_query(a);
    assert(bar_joined(a) =~= q.subrange(8, q.len() as int));
    assert(bar_joined(b) =~= q.subrange(8, q.len() as int));
    lemma_bar_joined_injective(a, b);
}

} // verus!
