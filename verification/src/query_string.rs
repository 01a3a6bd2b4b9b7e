//! The URL query-string form of a request.
//!
//! A query string is `&`-separated segments; each segment is a key, an
//! optional `=`, and a value. The recognized keys are `query` (required),
//! `operation_name` and `variables`; unknown keys are ignored, a repeated
//! recognized key is an error, and every recognized value is
//! percent-decoded. Keys are matched literally, before any decoding.

use vstd::prelude::*;

use crate::percent::{percent_decode, percent_decoded};

verus! {

/// Why a query string was rejected.
#[derive(Debug, PartialEq, Eq, Clone, Copy)]
pub enum QueryStringError {
    /// The required `query` key was absent.
    MissingQuery,
    /// A recognized key occurred twice.
    DuplicateField,
}

/// The index of the first occurrence of `sep`, or the length when absent.
pub open spec fn find_first(s: Seq<u8>, sep: u8) -> int
    decreases s.len(),
{
    if s.len() == 0 {
        0
    } else if s[0] == sep {
        0
    } else {
        1 + find_first(s.skip(1), sep)
    }
}

/// If nothing in `s` is `sep`, the search reports the length.
pub proof fn lemma_find_first_none(s: Seq<u8>, sep: u8)
    requires
        forall|j: int| 0 <= j < s.len() ==> s[j] != sep,
    ensures
        find_first(s, sep) == s.len(),
    decreases s.len(),
{
    if s.len() > 0 {
        assert forall|j: int| 0 <= j < s.skip(1).len() implies s.skip(1)[j] != sep by {
            assert(s.skip(1)[j] == s[j + 1]);
        }
        lemma_find_first_none(s.skip(1), sep);
    }
}

/// If `s[i]` is the first `sep`, the search reports `i`.
pub proof fn lemma_find_first_at(s: Seq<u8>, sep: u8, i: int)
    requires
        0 <= i < s.len(),
        s[i] == sep,
        forall|j: int| 0 <= j < i ==> s[j] != sep,
    ensures
        find_first(s, sep) == i,
    decreases s.len(),
{
    if i > 0 {
        assert(s.skip(1)[i - 1] == s[i]);
        assert forall|j: int| 0 <= j < i - 1 implies s.skip(1)[j] != sep by {
            assert(s.skip(1)[j] == s[j + 1]);
        }
        lemma_find_first_at(s.skip(1), sep, i - 1);
    }
}

/// A segment's key: everything before its first `=`.
pub open spec fn segment_key(seg: Seq<u8>) -> Seq<u8> {
    seg.take(find_first(seg, 61))
}

/// A segment's raw value: everything after its first `=`, empty when
/// there is none.
pub open spec fn segment_value(seg: Seq<u8>) -> Seq<u8> {
    if find_first(seg, 61) == seg.len() {
        Seq::empty()
    } else {
        seg.skip(find_first(seg, 61) + 1)
    }
}

/// The bytes of the key `query`.
pub open spec fn query_key() -> Seq<u8> {
    seq![113u8, 117u8, 101u8, 114u8, 121u8]
}

/// The bytes of the key `operation_name`.
pub open spec fn operation_name_key() -> Seq<u8> {
    seq![111u8, 112u8, 101u8, 114u8, 97u8, 116u8, 105u8, 111u8, 110u8, 95u8, 110u8, 97u8, 109u8,
        101u8]
}

/// The bytes of the key `variables`.
pub open spec fn variables_key() -> Seq<u8> {
    seq![118u8, 97u8, 114u8, 105u8, 97u8, 98u8, 108u8, 101u8, 115u8]
}

/// The raw (undecoded) values gathered so far, one slot per recognized
/// key.
pub open spec fn no_fields() -> (Option<Seq<u8>>, Option<Seq<u8>>, Option<Seq<u8>>) {
    (None, None, None)
}

/// Fold one segment into the gathered fields: store a recognized key's
/// raw value, reject a repeat, ignore anything else.
pub open spec fn apply_segment_spec(
    seg: Seq<u8>,
    acc: (Option<Seq<u8>>, Option<Seq<u8>>, Option<Seq<u8>>),
) -> Result<(Option<Seq<u8>>, Option<Seq<u8>>, Option<Seq<u8>>), QueryStringError> {
    let key = segment_key(seg);
    if key == query_key() {
        if acc.0 is Some {
            Err(QueryStringError::DuplicateField)
        } else {
            Ok((Some(segment_value(seg)), acc.1, acc.2))
        }
    } else if key == operation_name_key() {
        if acc.1 is Some {
            Err(QueryStringError::DuplicateField)
        } else {
            Ok((acc.0, Some(segment_value(seg)), acc.2))
        }
    } else if key == variables_key() {
        if acc.2 is Some {
            Err(QueryStringError::DuplicateField)
        } else {
            Ok((acc.0, acc.1, Some(segment_value(seg))))
        }
    } else {
        Ok(acc)
    }
}

/// Scan the remaining bytes, `cur` being the partial current segment.
pub open spec fn scan_query(
    s: Seq<u8>,
    cur: Seq<u8>,
    acc: (Option<Seq<u8>>, Option<Seq<u8>>, Option<Seq<u8>>),
) -> Result<(Option<Seq<u8>>, Option<Seq<u8>>, Option<Seq<u8>>), QueryStringError>
    decreases s.len(),
{
    if s.len() == 0 {
        apply_segment_spec(cur, acc)
    } else if s[0] == 38 {
        match apply_segment_spec(cur, acc) {
            Ok(a) => scan_query(s.skip(1), Seq::empty(), a),
            Err(e) => Err(e),
        }
    } else {
        scan_query(s.skip(1), cur.push(s[0]), acc)
    }
}

/// A decoded optional field.
pub open spec fn opt_decoded(o: Option<Seq<u8>>) -> Option<Seq<u8>> {
    match o {
        Some(v) => Some(percent_decoded(v)),
        None => None,
    }
}

/// What parsing a whole query string yields: the decoded `query` value
/// and the decoded optional fields, or the first error.
pub open spec fn parse_query_spec(s: Seq<u8>) -> Result<
    (Seq<u8>, Option<Seq<u8>>, Option<Seq<u8>>),
    QueryStringError,
> {
    match scan_query(s, Seq::empty(), no_fields()) {
        Err(e) => Err(e),
        Ok(acc) => match acc.0 {
            None => Err(QueryStringError::MissingQuery),
            Some(q) => Ok((percent_decoded(q), opt_decoded(acc.1), opt_decoded(acc.2))),
        },
    }
}

/// Whether two byte vectors hold the same bytes.
pub fn bytes_equal(a: &Vec<u8>, b: &Vec<u8>) -> (r: bool)
    ensures
        r == (a@ == b@),
{
    if a.len() != b.len() {
        return false;
    }
    let mut i: usize = 0;
    while i < a.len()
        invariant
            i <= a@.len(),
            a@.len() == b@.len(),
            forall|j: int| 0 <= j < i ==> a@[j] == b@[j],
        decreases a@.len() - i,
    {
        if a[i] != b[i] {
            return false;
        }
        i = i + 1;
    }
    proof {
        assert(a@ =~= b@);
    }
    true
}

/// The gathered raw values of one scan, executable form.
struct RawFields {
    query: Option<Vec<u8>>,
    operation_name: Option<Vec<u8>>,
    variables: Option<Vec<u8>>,
}

impl RawFields {
    /// The mathematical value of the gathered fields.
    spec fn view_spec(&self) -> (Option<Seq<u8>>, Option<Seq<u8>>, Option<Seq<u8>>) {
        (
            match self.query {
                Some(v) => Some(v@),
                None => None,
            },
            match self.operation_name {
                Some(v) => Some(v@),
                None => None,
            },
            match self.variables {
                Some(v) => Some(v@),
                None => None,
            },
        )
    }
}

/// Copy `seg[from..to]`.
fn copy_range(seg: &Vec<u8>, from: usize, to: usize) -> (out: Vec<u8>)
    requires
        from <= to <= seg@.len(),
    ensures
        out@ == seg@.subrange(from as int, to as int),
{
    let mut out: Vec<u8> = Vec::new();
    let mut k: usize = from;
    while k < to
        invariant
            from <= k <= to <= seg@.len(),
            out@ == seg@.subrange(from as int, k as int),
        decreases to - k,
    {
        out.push(seg[k]);
        k = k + 1;
        proof {
            assert(out@ =~= seg@.subrange(from as int, k as int));
        }
    }
    proof {
        assert(out@ =~= seg@.subrange(from as int, k as int));
    }
    out
}

/// Fold one complete segment into the gathered fields.
fn apply_segment(seg: Vec<u8>, acc: RawFields) -> (r: Result<RawFields, QueryStringError>)
    ensures
        match r {
            Ok(a) => apply_segment_spec(seg@, acc.view_spec()) == Ok::<
                (Option<Seq<u8>>, Option<Seq<u8>>, Option<Seq<u8>>),
                QueryStringError,
            >(a.view_spec()),
            Err(e) => apply_segment_spec(seg@, acc.view_spec()) == Err::<
                (Option<Seq<u8>>, Option<Seq<u8>>, Option<Seq<u8>>),
                QueryStringError,
            >(e),
        },
{
    let n = seg.len();
    let mut j: usize = 0;
    while j < n && seg[j] != 61
        invariant
            j <= n,
            n == seg@.len(),
            forall|k: int| 0 <= k < j ==> seg@[k] != 61,
        decreases n - j,
    {
        j = j + 1;
    }
    proof {
        if j < n {
            lemma_find_first_at(seg@, 61, j as int);
        } else {
            lemma_find_first_none(seg@, 61);
        }
    }
    let key = copy_range(&seg, 0, j);
    proof {
        assert(key@ =~= segment_key(seg@));
    }
    let value = if j == n {
        Vec::new()
    } else {
        copy_range(&seg, j + 1, n)
    };
    proof {
        assert(value@ =~= segment_value(seg@));
    }
    let query_lit: Vec<u8> = vec![113u8, 117u8, 101u8, 114u8, 121u8];
    let operation_name_lit: Vec<u8> = vec![111u8, 112u8, 101u8, 114u8, 97u8, 116u8, 105u8, 111u8,
        110u8, 95u8, 110u8, 97u8, 109u8, 101u8];
    let variables_lit: Vec<u8> = vec![118u8, 97u8, 114u8, 105u8, 97u8, 98u8, 108u8, 101u8, 115u8];
    proof {
        assert(query_lit@ =~= query_key());
        assert(operation_name_lit@ =~= operation_name_key());
        assert(variables_lit@ =~= variables_key());
    }
    if bytes_equal(&key, &query_lit) {
        if acc.query.is_some() {
            Err(QueryStringError::DuplicateField)
        } else {
            Ok(RawFields { query: Some(value), ..acc })
        }
    } else if bytes_equal(&key, &operation_name_lit) {
        if acc.operation_name.is_some() {
            Err(QueryStringError::DuplicateField)
        } else {
            Ok(RawFields { operation_name: Some(value), ..acc })
        }
    } else if bytes_equal(&key, &variables_lit) {
        if acc.variables.is_some() {
            Err(QueryStringError::DuplicateField)
        } else {
            Ok(RawFields { variables: Some(value), ..acc })
        }
    } else {
        Ok(acc)
    }
}

/// Parse a whole query string into its three decoded fields.
pub fn parse_query_string(input: &Vec<u8>) -> (r: Result<
    (Vec<u8>, Option<Vec<u8>>, Option<Vec<u8>>),
    QueryStringError,
>)
    ensures
        match r {
            Ok(p) => parse_query_spec(input@) == Ok::<
                (Seq<u8>, Option<Seq<u8>>, Option<Seq<u8>>),
                QueryStringError,
            >(
                (
                    p.0@,
                    match p.1 {
                        Some(v) => Some(v@),
                        None => None,
                    },
                    match p.2 {
                        Some(v) => Some(v@),
                        None => None,
                    },
                ),
            ),
            Err(e) => parse_query_spec(input@) == Err::<
                (Seq<u8>, Option<Seq<u8>>, Option<Seq<u8>>),
                QueryStringError,
            >(e),
        },
{
    let mut acc = RawFields { query: None, operation_name: None, variables: None };
    let mut cur: Vec<u8> = Vec::new();
    let mut i: usize = 0;
    proof {
        assert(input@.skip(0) =~= input@);
    }
    while i < input.len()
        invariant
            i <= input@.len(),
            scan_query(input@, Seq::empty(), no_fields()) == scan_query(
                input@.skip(i as int),
                cur@,
                acc.view_spec(),
            ),
        decreases input@.len() - i,
    {
        let b = input[i];
        proof {
            assert(input@.skip(i as int)[0] == input@[i as int]);
            assert(input@.skip(i as int).skip(1) =~= input@.skip(i + 1));
        }
        if b == 38 {
            let seg = cur;
            cur = Vec::new();
            match apply_segment(seg, acc) {
                Ok(a) => {
                    acc = a;
                },
                Err(e) => {
                    return Err(e);
                },
            }
        } else {
            cur.push(b);
        }
        i = i + 1;
    }
    proof {
        assert(input@.skip(input@.len() as int) =~= Seq::<u8>::empty());
    }
    let fields = match apply_segment(cur, acc) {
        Ok(a) => a,
        Err(e) => {
            return Err(e);
        },
    };
    match fields.query {
        None => Err(QueryStringError::MissingQuery),
        Some(q) => {
            let query = percent_decode(&q);
            let operation_name = match fields.operation_name {
                Some(v) => Some(percent_decode(&v)),
                None => None,
            };
            let variables = match fields.variables {
                Some(v) => Some(percent_decode(&v)),
                None => None,
            };
            Ok((query, operation_name, variables))
        },
    }
}

} // verus!
