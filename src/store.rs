//! Newline-delimited JSON framing: one serialized record per line.
use vstd::prelude::*;

verus! {

pub const NEWLINE: u8 = 10;

/// Why a payload could not be framed.
#[derive(Clone, Copy, Debug, PartialEq, Eq, Structural)]
pub enum StoreError {
    /// The serialized record at this index holds a line feed.
    EmbeddedNewline { record: usize },
}

pub open spec fn newline_free(r: Seq<u8>) -> bool {
    forall|j: int| 0 <= j < r.len() ==> r[j] != NEWLINE
}

pub open spec fn all_newline_free(rs: Seq<Seq<u8>>) -> bool {
    forall|i: int| 0 <= i < rs.len() ==> newline_free(#[trigger] rs[i])
}

/// Each record followed by a line feed, in order.
pub open spec fn jsonl(rs: Seq<Seq<u8>>) -> Seq<u8>
    decreases rs.len(),
{
    if rs.len() == 0 {
        Seq::empty()
    } else {
        jsonl(rs.drop_last()) + rs.last().push(NEWLINE)
    }
}

pub open spec fn byte_views(v: Seq<Vec<u8>>) -> Seq<Seq<u8>> {
    v.map_values(|r: Vec<u8>| r@)
}

/// `b`, with a line feed added when its last line lacks one.
pub open spec fn terminated(b: Seq<u8>) -> Seq<u8> {
    if b.len() == 0 || b.last() == NEWLINE {
        b
    } else {
        b.push(NEWLINE)
    }
}

/// `rs` are the lines of `b`.
pub open spec fn lines_of(b: Seq<u8>, rs: Seq<Seq<u8>>) -> bool {
    all_newline_free(rs) && jsonl(rs) == terminated(b)
}

proof fn lemma_jsonl_ends_with_newline(rs: Seq<Seq<u8>>)
    requires
        rs.len() > 0,
    ensures
        jsonl(rs).len() > 0,
        jsonl(rs).last() == NEWLINE,
{
}

proof fn lemma_jsonl_injective(p: Seq<Seq<u8>>, q: Seq<Seq<u8>>)
    requires
        all_newline_free(p),
        all_newline_free(q),
        jsonl(p) == jsonl(q),
    ensures
        p == q,
    decreases p.len() + q.len(),
{
    if p.len() == 0 || q.len() == 0 {
        if p.len() > 0 {
            lemma_jsonl_ends_with_newline(p);
        }
        if q.len() > 0 {
            lemma_jsonl_ends_with_newline(q);
        }
        assert(p =~= q);
    } else {
        let x = jsonl(p.drop_last());
        let y = jsonl(q.drop_last());
        let a = p.last();
        let c = q.last();
        assert(newline_free(a) && newline_free(c)) by {
            assert(p[p.len() - 1] == a);
            assert(q[q.len() - 1] == c);
        }
        let xa = x + a;
        let yc = y + c;
        assert(xa =~= jsonl(p).drop_last());
        assert(yc =~= jsonl(q).drop_last());
        if a.len() < c.len() {
            lemma_jsonl_ends_with_newline(p.drop_last());
            assert(xa[x.len() - 1] == NEWLINE);
            assert(yc[x.len() - 1] == c[x.len() - 1 - y.len()]);
            assert(false);
        } else if c.len() < a.len() {
            lemma_jsonl_ends_with_newline(q.drop_last());
            assert(yc[y.len() - 1] == NEWLINE);
            assert(xa[y.len() - 1] == a[y.len() - 1 - x.len()]);
            assert(false);
        }
        assert(a =~= xa.subrange(x.len() as int, xa.len() as int));
        assert(c =~= yc.subrange(y.len() as int, yc.len() as int));
        assert(x =~= xa.subrange(0, x.len() as int));
        assert(y =~= yc.subrange(0, y.len() as int));
        lemma_jsonl_injective(p.drop_last(), q.drop_last());
        assert(p =~= p.drop_last().push(a));
        assert(q =~= q.drop_last().push(c));
    }
}

/// Framing newline-free records and reading the lines back gives the
/// records again, in order, byte for byte.
pub proof fn lemma_jsonl_round_trip(records: Seq<Seq<u8>>, read: Seq<Seq<u8>>)
    requires
        all_newline_free(records),
        lines_of(jsonl(records), read),
    ensures
        read == records,
{
    if records.len() > 0 {
        lemma_jsonl_ends_with_newline(records);
    }
    lemma_jsonl_injective(read, records);
}

/// Frames the serialized records as JSON lines, refusing a record that holds
/// a line feed (the first one found).
pub fn encode_jsonl(records: &Vec<Vec<u8>>) -> (r: Result<Vec<u8>, StoreError>)
    ensures
        r matches Ok(b) ==> all_newline_free(byte_views(records@)) && b@ == jsonl(
            byte_views(records@),
        ),
        r matches Err(StoreError::EmbeddedNewline { record }) ==> {
            &&& record < records.len()
            &&& !newline_free(records@[record as int]@)
            &&& forall|i: int| 0 <= i < record ==> newline_free(#[trigger] records@[i]@)
        },
{
    let mut out: Vec<u8> = Vec::new();
    let n = records.len();
    for i in 0..n
        invariant
            n == records.len(),
            out@ == jsonl(byte_views(records@.take(i as int))),
            forall|k: int| 0 <= k < i ==> newline_free(#[trigger] records@[k]@),
    {
        let rec = &records[i];
        let m = rec.len();
        for j in 0..m
            invariant
                m == rec.len(),
                i < n,
                n == records.len(),
                rec == records@[i as int],
                forall|k: int| 0 <= k < i ==> newline_free(#[trigger] records@[k]@),
                out@ == jsonl(byte_views(records@.take(i as int))) + rec@.take(j as int),
                forall|t: int| 0 <= t < j ==> rec@[t] != NEWLINE,
        {
            if rec[j] == NEWLINE {
                proof {
                    assert(rec@[j as int] == NEWLINE);
                }
                return Err(StoreError::EmbeddedNewline { record: i });
            }
            out.push(rec[j]);
            proof {
                assert(rec@.take(j as int + 1) =~= rec@.take(j as int).push(rec@[j as int]));
            }
        }
        out.push(NEWLINE);
        proof {
            let pre = byte_views(records@.take(i as int + 1));
            assert(pre.drop_last() =~= byte_views(records@.take(i as int)));
            assert(rec@.take(m as int) =~= rec@);
            assert(pre.last() == rec@);
        }
    }
    proof {
        assert(records@.take(n as int) =~= records@);
        assert forall|k: int| 0 <= k < byte_views(records@).len() implies newline_free(
            #[trigger] byte_views(records@)[k],
        ) by {
            assert(newline_free(records@[k]@));
        }
    }
    Ok(out)
}

/// Splits bytes into lines at each line feed; a last line without one counts
/// as a line too.
pub fn decode_jsonl(bytes: &Vec<u8>) -> (r: Vec<Vec<u8>>)
    ensures
        lines_of(bytes@, byte_views(r@)),
{
    let mut lines: Vec<Vec<u8>> = Vec::new();
    let mut cur: Vec<u8> = Vec::new();
    let n = bytes.len();
    for i in 0..n
        invariant
            n == bytes.len(),
            all_newline_free(byte_views(lines@)),
            newline_free(cur@),
            jsonl(byte_views(lines@)) + cur@ == bytes@.take(i as int),
            cur@.len() == 0 && lines@.len() > 0 ==> jsonl(byte_views(lines@)).last() == NEWLINE,
    {
        let ghost old_lines = lines@;
        let ghost old_cur = cur@;
        if bytes[i] == NEWLINE {
            lines.push(cur);
            cur = Vec::new();
            proof {
                assert(byte_views(lines@).drop_last() =~= byte_views(old_lines));
                assert(bytes@.take(i as int + 1) =~= bytes@.take(i as int).push(NEWLINE));
                assert(jsonl(byte_views(lines@)) + cur@ =~= jsonl(byte_views(lines@)));
                assert forall|k: int| 0 <= k < byte_views(lines@).len() implies newline_free(
                    #[trigger] byte_views(lines@)[k],
                ) by {
                    if k < old_lines.len() {
                        assert(byte_views(lines@)[k] == byte_views(old_lines)[k]);
                    }
                }
            }
        } else {
            cur.push(bytes[i]);
            proof {
                assert(bytes@.take(i as int + 1) =~= bytes@.take(i as int).push(bytes@[i as int]));
                assert(jsonl(byte_views(lines@)) + cur@ =~= (jsonl(byte_views(lines@)) + old_cur).push(
                    bytes@[i as int],
                ));
            }
        }
    }
    proof {
        assert(bytes@.take(n as int) =~= bytes@);
    }
    if cur.len() > 0 {
        let ghost old_lines = lines@;
        let ghost last_line = cur@;
        lines.push(cur);
        proof {
            assert(byte_views(lines@).drop_last() =~= byte_views(old_lines));
            assert(bytes@.last() == last_line.last());
            assert(jsonl(byte_views(lines@)) =~= bytes@.push(NEWLINE));
            assert forall|k: int| 0 <= k < byte_views(lines@).len() implies newline_free(
                #[trigger] byte_views(lines@)[k],
            ) by {
                if k < old_lines.len() {
                    assert(byte_views(lines@)[k] == byte_views(old_lines)[k]);
                }
            }
        }
    } else {
        proof {
            assert(jsonl(byte_views(lines@)) =~= bytes@);
        }
    }
    lines
}

} // verus!
