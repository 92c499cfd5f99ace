//! Server-sent-events framing for streaming chat-completion responses: a
//! chunk's JSON payload is whatever follows the first `data: ` marker.

use vstd::prelude::*;

verus! {

/// The bytes of the `data: ` marker.
pub open spec fn data_marker() -> Seq<u8> {
    seq![100u8, 97u8, 116u8, 97u8, 58u8, 32u8]
}

/// The marker starts at position `i`.
pub open spec fn marker_at(s: Seq<u8>, i: int) -> bool {
    &&& 0 <= i
    &&& i + 6 <= s.len()
    &&& forall|k: int| 0 <= k < 6 ==> s[i + k] == data_marker()[k]
}

/// The first marker position at or after `i`, if any.
pub open spec fn find_marker_from(s: Seq<u8>, i: int) -> Option<int>
    decreases s.len() - i,
{
    if i + 6 > s.len() {
        None
    } else if marker_at(s, i) {
        Some(i)
    } else {
        find_marker_from(s, i + 1)
    }
}

/// The payload of a streaming chunk: the bytes after the first `data: `
/// marker, or nothing when the frame carries no marker.
pub fn extract_stream_data(body: &Vec<u8>) -> (r: Option<Vec<u8>>)
    ensures
        match find_marker_from(body@, 0) {
            Some(i) => r matches Some(data) && data@ == body@.skip(i + 6),
            None => r is None,
        },
{
    let n = body.len();
    if n < 6 {
        return None;
    }
    let mut i: usize = 0;
    while i <= n - 6
        invariant
            0 <= i <= n - 6 + 1,
            6 <= n,
            n == body@.len(),
            find_marker_from(body@, i as int) == find_marker_from(body@, 0),
        decreases n - i,
    {
        if body[i] == 100 && body[i + 1] == 97 && body[i + 2] == 116 && body[i + 3] == 97
            && body[i + 4] == 58 && body[i + 5] == 32 {
            proof {
                assert(marker_at(body@, i as int));
            }
            let mut out: Vec<u8> = Vec::new();
            let mut j: usize = i + 6;
            while j < n
                invariant
                    i + 6 <= j <= n,
                    n == body@.len(),
                    out@ =~= body@.subrange(i as int + 6, j as int),
                decreases n - j,
            {
                out.push(body[j]);
                proof {
                    assert(out@ =~= body@.subrange(i as int + 6, j as int + 1));
                }
                j = j + 1;
            }
            proof {
                assert(out@ =~= body@.skip(i as int + 6));
            }
            return Some(out);
        }
        proof {
            assert(!marker_at(body@, i as int));
        }
        i = i + 1;
    }
    proof {
        assert(find_marker_from(body@, i as int) is None);
    }
    None
}

/// The sentinel frame `[NONE]`, which streaming backends may emit and which
/// token accounting tolerates and ignores.
pub fn is_none_sentinel(data: &Vec<u8>) -> (r: bool)
    ensures
        r == (data@ =~= seq![91u8, 78u8, 79u8, 78u8, 69u8, 93u8]),
{
    if data.len() != 6 {
        return false;
    }
    let r = data[0] == 91 && data[1] == 78 && data[2] == 79 && data[3] == 78 && data[4] == 69
        && data[5] == 93;
    proof {
        if r {
            assert(data@ =~= seq![91u8, 78u8, 79u8, 78u8, 69u8, 93u8]);
        } else {
            assert(!(data@ =~= seq![91u8, 78u8, 79u8, 78u8, 69u8, 93u8]));
        }
    }
    r
}

} // verus!
