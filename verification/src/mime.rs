use vstd::prelude::*;

verus! {

use crate::bytes::bytes_equal;
use crate::bytes::suffix_from;

/// The file extension of `p`: the bytes after the last `.` of its last
/// segment, or `None` when that segment has no dot.
pub open spec fn ext_of(p: Seq<u8>) -> Option<Seq<u8>>
    decreases p.len(),
{
    if p.len() == 0 {
        None
    } else if p.last() == 46u8 {
        Some(Seq::empty())
    } else if p.last() == 47u8 {
        None
    } else {
        match ext_of(p.drop_last()) {
            Some(e) => Some(e.push(p.last())),
            None => None,
        }
    }
}

/// Bytes of `application/x-tar`.
pub open spec fn mime_tar() -> Seq<u8> {
    seq![
        97u8, 112u8, 112u8, 108u8, 105u8, 99u8, 97u8, 116u8, 105u8, 111u8, 110u8, 47u8, 120u8,
        45u8, 116u8, 97u8, 114u8,
    ]
}

/// Bytes of `application/zip`.
pub open spec fn mime_zip() -> Seq<u8> {
    seq![
        97u8, 112u8, 112u8, 108u8, 105u8, 99u8, 97u8, 116u8, 105u8, 111u8, 110u8, 47u8, 122u8,
        105u8, 112u8,
    ]
}

/// Bytes of `application/gzip`.
pub open spec fn mime_gzip() -> Seq<u8> {
    seq![
        97u8, 112u8, 112u8, 108u8, 105u8, 99u8, 97u8, 116u8, 105u8, 111u8, 110u8, 47u8, 103u8,
        122u8, 105u8, 112u8,
    ]
}

/// Bytes of `application/json`.
pub open spec fn mime_json() -> Seq<u8> {
    seq![
        97u8, 112u8, 112u8, 108u8, 105u8, 99u8, 97u8, 116u8, 105u8, 111u8, 110u8, 47u8, 106u8,
        115u8, 111u8, 110u8,
    ]
}

/// Bytes of `application/octet-stream`, the type of every unknown extension.
pub open spec fn mime_octet_stream() -> Seq<u8> {
    seq![
        97u8, 112u8, 112u8, 108u8, 105u8, 99u8, 97u8, 116u8, 105u8, 111u8, 110u8, 47u8, 111u8,
        99u8, 116u8, 101u8, 116u8, 45u8, 115u8, 116u8, 114u8, 101u8, 97u8, 109u8,
    ]
}

/// Bytes of `tar`.
pub open spec fn ext_tar() -> Seq<u8> {
    seq![116u8, 97u8, 114u8]
}

/// Bytes of `zip`.
pub open spec fn ext_zip() -> Seq<u8> {
    seq![122u8, 105u8, 112u8]
}

/// Bytes of `gz`.
pub open spec fn ext_gz() -> Seq<u8> {
    seq![103u8, 122u8]
}

/// Bytes of `json`.
pub open spec fn ext_json() -> Seq<u8> {
    seq![106u8, 115u8, 111u8, 110u8]
}

/// The best-effort content type of the file at `p`, chosen by extension;
/// anything unknown is generic binary.
pub open spec fn content_type_of(p: Seq<u8>) -> Seq<u8> {
    match ext_of(p) {
        Some(e) => if e == ext_tar() {
            mime_tar()
        } else if e == ext_zip() {
            mime_zip()
        } else if e == ext_gz() {
            mime_gzip()
        } else if e == ext_json() {
            mime_json()
        } else {
            mime_octet_stream()
        },
        None => mime_octet_stream(),
    }
}

/// Appending bytes that are neither `.` nor `/` extends the extension and
/// never creates one.
proof fn lemma_ext_plain_suffix(a: Seq<u8>, b: Seq<u8>)
    requires
        forall|k: int| 0 <= k < b.len() ==> b[k] != 46u8 && b[k] != 47u8,
    ensures
        ext_of(a + b) == match ext_of(a) {
            Some(e) => Some(e + b),
            None => None::<Seq<u8>>,
        },
    decreases b.len(),
{
    if b.len() == 0 {
        assert(a + b =~= a);
        match ext_of(a) {
            Some(e) => {
                assert(e + b =~= e);
            },
            None => {},
        }
    } else {
        let b0 = b.drop_last();
        let c = b.last();
        lemma_ext_plain_suffix(a, b0);
        assert(a + b =~= (a + b0).push(c));
        assert(((a + b0).push(c)).drop_last() =~= a + b0);
        match ext_of(a) {
            Some(e) => {
                assert(e + b =~= (e + b0).push(c));
            },
            None => {},
        }
    }
}

/// The extension of the path `p`, as a fresh vector.
pub fn extension_of(p: &Vec<u8>) -> (r: Option<Vec<u8>>)
    ensures
        match r {
            Some(e) => ext_of(p@) == Some(e@),
            None => ext_of(p@) is None,
        },
{
    let n: usize = p.len();
    let mut j: usize = n;
    while j > 0
        invariant
            j <= n,
            n == p@.len(),
            forall|k: int| j <= k < n ==> p@[k] != 46u8 && p@[k] != 47u8,
        decreases j,
    {
        let c: u8 = p[j - 1];
        if c == 46u8 {
            let e = suffix_from(p, j);
            proof {
                let a = p@.subrange(0, j as int);
                let b = p@.subrange(j as int, n as int);
                lemma_ext_plain_suffix(a, b);
                assert(p@ =~= a + b);
                assert(a.last() == 46u8);
                assert(ext_of(a) == Some(Seq::<u8>::empty()));
                assert(Seq::<u8>::empty() + b =~= b);
            }
            return Some(e);
        }
        if c == 47u8 {
            proof {
                let a = p@.subrange(0, j as int);
                let b = p@.subrange(j as int, n as int);
                lemma_ext_plain_suffix(a, b);
                assert(p@ =~= a + b);
                assert(a.last() == 47u8);
                assert(ext_of(a) is None);
            }
            return None;
        }
        j -= 1;
    }
    proof {
        let b = p@.subrange(0, n as int);
        lemma_ext_plain_suffix(Seq::<u8>::empty(), b);
        assert(p@ =~= Seq::<u8>::empty() + b);
        assert(ext_of(Seq::<u8>::empty()) is None);
    }
    None
}

/// The best-effort content type of the file at `p`, chosen by extension.
pub fn content_type_for(p: &Vec<u8>) -> (r: Vec<u8>)
    ensures
        r@ == content_type_of(p@),
{
    let e = match extension_of(p) {
        Some(e) => e,
        None => {
            let r: Vec<u8> = vec![
                97u8, 112u8, 112u8, 108u8, 105u8, 99u8, 97u8, 116u8, 105u8, 111u8, 110u8, 47u8,
                111u8, 99u8, 116u8, 101u8, 116u8, 45u8, 115u8, 116u8, 114u8, 101u8, 97u8, 109u8,
            ];
            assert(r@ =~= mime_octet_stream());
            return r;
        },
    };
    let tar: Vec<u8> = vec![116u8, 97u8, 114u8];
    assert(tar@ =~= ext_tar());
    if bytes_equal(&e, &tar) {
        let r: Vec<u8> = vec![
            97u8, 112u8, 112u8, 108u8, 105u8, 99u8, 97u8, 116u8, 105u8, 111u8, 110u8, 47u8, 120u8,
            45u8, 116u8, 97u8, 114u8,
        ];
        assert(r@ =~= mime_tar());
        return r;
    }
    let zip: Vec<u8> = vec![122u8, 105u8, 112u8];
    assert(zip@ =~= ext_zip());
    if bytes_equal(&e, &zip) {
        let r: Vec<u8> = vec![
            97u8, 112u8, 112u8, 108u8, 105u8, 99u8, 97u8, 116u8, 105u8, 111u8, 110u8, 47u8, 122u8,
            105u8, 112u8,
        ];
        assert(r@ =~= mime_zip());
        return r;
    }
    let gz: Vec<u8> = vec![103u8, 122u8];
    assert(gz@ =~= ext_gz());
    if bytes_equal(&e, &gz) {
        let r: Vec<u8> = vec![
            97u8, 112u8, 112u8, 108u8, 105u8, 99u8, 97u8, 116u8, 105u8, 111u8, 110u8, 47u8, 103u8,
            122u8, 105u8, 112u8,
        ];
        assert(r@ =~= mime_gzip());
        return r;
    }
    let json: Vec<u8> = vec![106u8, 115u8, 111u8, 110u8];
    assert(json@ =~= ext_json());
    if bytes_equal(&e, &json) {
        let r: Vec<u8> = vec![
            97u8, 112u8, 112u8, 108u8, 105u8, 99u8, 97u8, 116u8, 105u8, 111u8, 110u8, 47u8, 106u8,
            115u8, 111u8, 110u8,
        ];
        assert(r@ =~= mime_json());
        return r;
    }
    let r: Vec<u8> = vec![
        97u8, 112u8, 112u8, 108u8, 105u8, 99u8, 97u8, 116u8, 105u8, 111u8, 110u8, 47u8, 111u8,
        99u8, 116u8, 101u8, 116u8, 45u8, 115u8, 116u8, 114u8, 101u8, 97u8, 109u8,
    ];
    assert(r@ =~= mime_octet_stream());
    r
}

} // verus!
