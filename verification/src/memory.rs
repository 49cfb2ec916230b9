//! What the library knows of the store: how near an entry of the semantic
//! cache must be, how an embedding is written down, and how knowledge from
//! the store is put before a query.

use vstd::prelude::*;
use vstd::string::StringExecFns;

verus! {

/// How near, in thousandths of the index's distance, a cached decision must
/// be to the query to be used.
pub const CACHE_HIT_THRESHOLD_MILLIS: u32 = 100;

/// How near, in thousandths of the index's distance, a cached decision must
/// be to an input to be corrected in place. It is stricter than the
/// threshold for use, so that a correction does not reach unrelated entries.
pub const CORRECTION_THRESHOLD_MILLIS: u32 = 50;

/// How many documents are put before a query.
pub const KNOWLEDGE_LIMIT: i64 = 3;

/// The four bytes of `x`, least significant first.
pub open spec fn le_bytes(x: u32) -> Seq<u8> {
    seq![
        (x % 256) as u8,
        (x / 256 % 256) as u8,
        (x / 65536 % 256) as u8,
        (x / 16777216) as u8,
    ]
}

/// The bytes of the first `n` components of `v`, each least significant
/// byte first.
pub open spec fn embedding_bytes(v: Seq<u32>, n: int) -> Seq<u8>
    decreases n,
{
    if n <= 0 || n > v.len() {
        Seq::<u8>::empty()
    } else {
        embedding_bytes(v, n - 1) + le_bytes(v[n - 1])
    }
}

/// Writes an embedding down as the index takes it: four bytes for each
/// component, least significant first. A component is a 32-bit floating
/// point number, held by its bits.
pub fn f32_vec_to_bytes(v: &Vec<u32>) -> (bytes: Vec<u8>)
    ensures
        bytes@ == embedding_bytes(v@, v.len() as int),
{
    let mut bytes: Vec<u8> = Vec::new();
    let mut i: usize = 0;
    while i < v.len()
        invariant
            i <= v.len(),
            bytes@ == embedding_bytes(v@, i as int),
        decreases v.len() - i,
    {
        let x: u32 = v[i];
        let ghost before = bytes@;
        bytes.push((x % 256) as u8);
        bytes.push((x / 256 % 256) as u8);
        bytes.push((x / 65536 % 256) as u8);
        bytes.push((x / 16777216) as u8);
        assert(bytes@ =~= before + le_bytes(x));
        i += 1;
    }
    bytes
}

/// The documents in `docs`, with a rule between them.
pub open spec fn joined_documents(docs: Seq<String>, n: int) -> Seq<char>
    decreases n,
{
    if n <= 0 || n > docs.len() {
        Seq::<char>::empty()
    } else if n == 1 {
        docs[0]@
    } else {
        joined_documents(docs, n - 1) + "\n---\n"@ + docs[n - 1]@
    }
}

/// The prompt for a handler: the query, with the documents found for it
/// before it where there are any.
pub open spec fn knowledge_prompt_spec(docs: Seq<String>, query: Seq<char>) -> Seq<char> {
    if docs.len() == 0 {
        query
    } else {
        "RELEVANT KNOWLEDGE:\n"@ + joined_documents(docs, docs.len() as int) + "\n\nUSER QUERY:\n"@
            + query
    }
}

/// Puts the documents found for a query before it.
pub fn knowledge_prompt(docs: &Vec<String>, query: &str) -> (r: String)
    ensures
        r@ == knowledge_prompt_spec(docs@, query@),
{
    if docs.len() == 0 {
        return String::from_str(query);
    }
    let mut r = String::from_str("RELEVANT KNOWLEDGE:\n");
    let ghost head = r@;
    let mut i: usize = 0;
    while i < docs.len()
        invariant
            i <= docs.len(),
            r@ == head + joined_documents(docs@, i as int),
        decreases docs.len() - i,
    {
        if i > 0 {
            r.append("\n---\n");
        }
        r.append(docs[i].as_str());
        proof {
            if i == 0 {
                assert(r@ =~= head + joined_documents(docs@, 1));
            } else {
                assert(r@ =~= head + joined_documents(docs@, i + 1));
            }
        }
        i += 1;
    }
    r.append("\n\nUSER QUERY:\n");
    r.append(query);
    r
}

} // verus!
