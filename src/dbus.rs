use vstd::prelude::*;
use vstd::slice::{slice_subrange, slice_to_vec};

use crate::text::{bytes_eq, first_index, is_first, lemma_split_step, position, push_bytes, split_on};

verus! {

/// `path`
pub open spec fn path_key() -> Seq<u8> {
    seq![112u8, 97, 116, 104]
}

/// `abstract`
pub open spec fn abstract_key() -> Seq<u8> {
    seq![97u8, 98, 115, 116, 114, 97, 99, 116]
}

/// The socket of the first entry that names one: a `path`, or an
/// `abstract` name, which gets a leading NUL.
pub open spec fn socket_of(entries: Seq<Seq<u8>>) -> Option<Seq<u8>>
    decreases entries.len(),
{
    if entries.len() == 0 {
        None
    } else {
        let e = entries[0];
        match first_index(e, 61) {
            Some(i) => {
                let k = e.subrange(0, i);
                let v = e.subrange(i + 1, e.len() as int);
                if k == path_key() {
                    Some(v)
                } else if k == abstract_key() {
                    Some(seq![0u8] + v)
                } else {
                    socket_of(entries.drop_first())
                }
            },
            None => socket_of(entries.drop_first()),
        }
    }
}

/// The socket address of a bus address `unix:key=value,...`: the five
/// bytes of the transport are passed over, then the entries are searched.
pub open spec fn spec_address(addr: Seq<u8>) -> Option<Seq<u8>> {
    if addr.len() < 5 {
        None
    } else {
        socket_of(split_on(addr.subrange(5, addr.len() as int), 44))
    }
}

proof fn lemma_socket_cons(x: Seq<u8>, rest: Seq<Seq<u8>>)
    ensures
        socket_of(seq![x] + rest) == (match first_index(x, 61) {
            Some(i) => {
                let k = x.subrange(0, i);
                let v = x.subrange(i + 1, x.len() as int);
                if k == path_key() {
                    Some(v)
                } else if k == abstract_key() {
                    Some(seq![0u8] + v)
                } else {
                    socket_of(rest)
                }
            },
            None => socket_of(rest),
        }),
{
    let l = seq![x] + rest;
    assert(l[0] == x);
    assert(l.drop_first() =~= rest);
}

/// What one entry names, if anything.
fn entry_socket(e: &[u8]) -> (r: Option<Vec<u8>>)
    ensures
        r matches Some(v) ==> first_index(e@, 61) matches Some(i) && ((e@.subrange(0, i) == path_key() && v@
            == e@.subrange(i + 1, e@.len() as int)) || (e@.subrange(0, i) != path_key() && e@.subrange(0, i)
            == abstract_key() && v@ == seq![0u8] + e@.subrange(i + 1, e@.len() as int))),
        r is None ==> match first_index(e@, 61) {
            Some(i) => e@.subrange(0, i) != path_key() && e@.subrange(0, i) != abstract_key(),
            None => true,
        },
{
    let i = match position(e, 61) {
        Some(i) => i,
        None => {
            return None;
        },
    };
    let n = e.len();
    let k = slice_subrange(e, 0, i);
    let v = slice_subrange(e, i + 1, n);
    let path_bytes: [u8; 4] = [112, 97, 116, 104];
    let abstract_bytes: [u8; 8] = [97, 98, 115, 116, 114, 97, 99, 116];
    proof {
        assert(path_bytes@ == path_key());
        assert(abstract_bytes@ == abstract_key());
    }
    if bytes_eq(k, &path_bytes) {
        Some(slice_to_vec(v))
    } else if bytes_eq(k, &abstract_bytes) {
        let mut r: Vec<u8> = Vec::new();
        r.push(0);
        push_bytes(&mut r, v);
        Some(r)
    } else {
        None
    }
}

/// The socket to connect to for a bus address; see `spec_address`.
pub fn address(addr: &[u8]) -> (r: Option<Vec<u8>>)
    ensures
        r is Some <==> spec_address(addr@) is Some,
        r matches Some(v) ==> v@ == spec_address(addr@)->0,
{
    if addr.len() < 5 {
        return None;
    }
    let n = addr.len();
    let body = slice_subrange(addr, 5, n);
    let ghost entries = split_on(body@, 44);
    let mut at: usize = 0;
    proof {
        assert(body@.subrange(0, body@.len() as int) =~= body@);
    }
    loop
        invariant
            at <= body@.len(),
            addr@.len() >= 5,
            body@ == addr@.subrange(5, addr@.len() as int),
            entries == split_on(body@, 44),
            socket_of(split_on(body@.subrange(at as int, body@.len() as int), 44)) == socket_of(entries),
        decreases body@.len() - at,
    {
        let rest = slice_subrange(body, at, body.len());
        match position(rest, 44) {
            Some(i) => {
                let e = slice_subrange(rest, 0, i);
                proof {
                    lemma_split_step(rest@, 44, i as int);
                    lemma_socket_cons(e@, split_on(rest@.subrange(i + 1, rest@.len() as int), 44));
                    assert(rest@.subrange(i + 1, rest@.len() as int) =~= body@.subrange(at + i + 1, body@.len() as int));
                }
                match entry_socket(e) {
                    Some(v) => {
                        return Some(v);
                    },
                    None => {},
                }
                at = at + i + 1;
            },
            None => {
                proof {
                    assert(!exists|k: int| is_first(rest@, 44, k));
                    assert(split_on(rest@, 44) == seq![rest@]);
                    lemma_socket_cons(rest@, Seq::empty());
                    assert(seq![rest@] + Seq::<Seq<u8>>::empty() =~= seq![rest@]);
                    assert(socket_of(Seq::<Seq<u8>>::empty()) is None);
                }
                return entry_socket(rest);
            },
        }
    }
}

/// Failures of the session-bus client that the library can name.
#[derive(Clone, Debug, PartialEq, Eq)]
pub enum Error {
    /// No bus address is set.
    AddrNotFound,
    /// The bus address names no socket.
    FailedParseAddr,
    /// The peer answered with an error message.
    ErrorMessage { name: Vec<u8>, desc: Option<Vec<u8>> },
    /// No answer came in time.
    Elapsed,
}

/// The socket of the session bus, from the address the environment gave,
/// if it gave one.
pub fn session_socket(addr: Option<&[u8]>) -> (r: Result<Vec<u8>, Error>)
    ensures
        addr is None ==> r == Err::<Vec<u8>, Error>(Error::AddrNotFound),
        addr matches Some(a) ==> match spec_address(a@) {
            Some(s) => r matches Ok(v) && v@ == s,
            None => r == Err::<Vec<u8>, Error>(Error::FailedParseAddr),
        },
{
    match addr {
        None => Err(Error::AddrNotFound),
        Some(a) => match address(a) {
            Some(v) => Ok(v),
            None => Err(Error::FailedParseAddr),
        },
    }
}

} // verus!
