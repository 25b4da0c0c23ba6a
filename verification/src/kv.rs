//! Key-value serialization: a record's pairs, in the order the producer
//! presents them, are accumulated as `key=value,` chunks; the finished
//! field content is the accumulation with the one trailing separator
//! removed, and is absent altogether when there are no pairs.

use vstd::prelude::*;
use vstd::string::StrSliceExecFns;
use vstd::string::StringExecFns;

verus! {

/// One key-value pair of a record, with the value already rendered to text
/// by the producer's own formatting rules.
pub struct KvPair {
    pub key: String,
    pub value: String,
}

/// The serialized form of one pair: `key=value,`.
pub open spec fn pair_chunk(key: Seq<char>, val: Seq<char>) -> Seq<char> {
    key + seq!['='] + val + seq![',']
}

/// The accumulated serialization of a pair sequence, in sequence order,
/// each pair contributing its chunk.
pub open spec fn kv_accum(pairs: Seq<KvPair>) -> Seq<char>
    decreases pairs.len(),
{
    if pairs.len() == 0 {
        Seq::<char>::empty()
    } else {
        kv_accum(pairs.drop_last()) + pair_chunk(pairs.last().key@, pairs.last().value@)
    }
}

/// The content of the synthetic key-value field: absent when nothing was
/// serialized, otherwise the accumulation with its final separator removed.
pub open spec fn kv_field_spec(pairs: Seq<KvPair>) -> Option<Seq<char>> {
    if kv_accum(pairs).len() <= 1 {
        None
    } else {
        Some(kv_accum(pairs).drop_last())
    }
}

/// The accumulation is empty exactly for the empty pair sequence, and each
/// pair contributes at least its two separator characters.
pub proof fn lemma_kv_accum_len(pairs: Seq<KvPair>)
    ensures
        kv_accum(pairs).len() == 0 <==> pairs.len() == 0,
        pairs.len() > 0 ==> kv_accum(pairs).len() >= 2,
    decreases pairs.len(),
{
    if pairs.len() > 0 {
        lemma_kv_accum_len(pairs.drop_last());
    }
}

/// With no pairs the key-value field is absent, not an empty string.
pub proof fn lemma_kv_field_empty(pairs: Seq<KvPair>)
    requires
        pairs.len() == 0,
    ensures
        kv_field_spec(pairs) is None,
{
}

/// With at least one pair the key-value field is present: the chunks in
/// producer order, with exactly one trailing separator stripped.
pub proof fn lemma_kv_field_nonempty(pairs: Seq<KvPair>)
    requires
        pairs.len() > 0,
    ensures
        kv_field_spec(pairs) == Some(kv_accum(pairs).drop_last()),
{
    lemma_kv_accum_len(pairs);
}

/// The field content carries no trailing separator, as long as the last
/// pair's value does not itself end with the separator character.
pub proof fn lemma_kv_no_trailing_comma(pairs: Seq<KvPair>)
    requires
        pairs.len() > 0,
        pairs.last().value@.len() == 0 || pairs.last().value@.last() != ',',
    ensures
        kv_field_spec(pairs) matches Some(s) && s.len() > 0 && s.last() != ',',
{
    lemma_kv_accum_len(pairs);
    lemma_kv_accum_len(pairs.drop_last());
    let a = kv_accum(pairs.drop_last());
    let k = pairs.last().key@;
    let v = pairs.last().value@;
    let c = pair_chunk(k, v);
    assert(kv_accum(pairs) == a + c);
    let s = kv_accum(pairs).drop_last();
    assert(s.len() == a.len() + c.len() - 1);
    assert(s.last() == (a + c)[a.len() + c.len() - 2]);
    if v.len() == 0 {
        assert(c[c.len() - 2] == '=');
    } else {
        assert(c[c.len() - 2] == v.last());
    }
    assert(s.last() == c[c.len() - 2]);
}

/// An allocating serializer that accumulates one `key=value,` chunk per
/// emitted pair.
pub struct TracingKvSerializer {
    pub storage: String,
}

impl Default for TracingKvSerializer {
    /// A fresh serializer holds nothing.
    fn default() -> (r: Self)
        ensures
            r.storage@ == Seq::<char>::empty(),
    {
        TracingKvSerializer { storage: String::new() }
    }
}

impl TracingKvSerializer {
    /// Appends one pair's chunk to the accumulated storage.
    pub fn emit_pair(&mut self, key: &str, val: &str)
        ensures
            final(self).storage@ == old(self).storage@ + pair_chunk(key@, val@),
    {
        self.storage.append(key);
        self.storage.append("=");
        self.storage.append(val);
        self.storage.append(",");
        proof {
            reveal_strlit("=");
            reveal_strlit(",");
            assert(self.storage@ =~= old(self).storage@ + pair_chunk(key@, val@));
        }
    }

    /// Returns the serialized pairs as a string with the trailing separator
    /// stripped, or `None` when stripping one character would leave nothing.
    pub fn as_str(&self) -> (r: Option<&str>)
        ensures
            self.storage@.len() <= 1 ==> r is None,
            self.storage@.len() > 1 ==> (r matches Some(s) && s@ == self.storage@.drop_last()),
    {
        let n = self.storage.as_str().unicode_len();
        if n <= 1 {
            None
        } else {
            let stripped = self.storage.as_str().substring_char(0, n - 1);
            proof {
                assert(stripped@ =~= self.storage@.drop_last());
            }
            Some(stripped)
        }
    }
}

} // verus!
