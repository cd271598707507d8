//! Records as the commands of every cluster list them: each record reads
//! and writes itself, and a list of records runs to the end of the frame.
use vstd::prelude::*;

use crate::bytes::ParseError;
use crate::collections::Vec;

verus! {

/// A record of a command: what it holds (`V`), how it is read at an offset
/// and how it is written.
pub trait WireRecord: Sized {
    type V;

    spec fn rec_view(&self) -> Self::V;

    /// The record at `off` and how many bytes it takes.
    spec fn spec_read(s: Seq<u8>, off: int) -> Result<(Self::V, int), ParseError>;

    /// The bytes of a record; none where it cannot be written.
    spec fn spec_write(v: Self::V) -> Option<Seq<u8>>;

    fn read(bytes: &[u8], off: usize) -> (r: Result<(Self, usize), ParseError>)
        requires
            off < bytes@.len(),
        ensures
            match r {
                Ok((x, n)) => Self::spec_read(bytes@, off as int) == Ok::<(Self::V, int), ParseError>(
                    (x.rec_view(), n as int),
                ) && 1 <= n && off + n <= bytes@.len(),
                Err(e) => Self::spec_read(bytes@, off as int) == Err::<(Self::V, int), ParseError>(e),
            },
    ;

    fn write(&self, out: &mut std::vec::Vec<u8>) -> (r: Result<(), ParseError>)
        ensures
            r is Ok <==> Self::spec_write(self.rec_view()) is Some,
            r is Ok ==> final(out)@ == old(out)@ + Self::spec_write(self.rec_view())->Some_0,
    ;
}

/// The records from `off` to the end of `s`, one after the other.
pub open spec fn spec_read_list<T: WireRecord>(s: Seq<u8>, off: int) -> Result<Seq<T::V>, ParseError>
    decreases s.len() - off,
{
    if off < 0 || off >= s.len() {
        Ok(Seq::empty())
    } else {
        match T::spec_read(s, off) {
            Err(e) => Err(e),
            Ok((v, n)) => if n < 1 || off + n > s.len() {
                Err(ParseError::BadInput)
            } else {
                match spec_read_list::<T>(s, off + n) {
                    Ok(rest) => Ok(seq![v] + rest),
                    Err(e) => Err(e),
                }
            },
        }
    }
}

/// The records of a command from `off` to the end; more than 64 are
/// refused.
pub open spec fn spec_read_records<T: WireRecord>(s: Seq<u8>, off: int) -> Result<Seq<T::V>, ParseError> {
    match spec_read_list::<T>(s, off) {
        Ok(l) => if l.len() > 64 {
            Err(ParseError::BadInput)
        } else {
            Ok(l)
        },
        Err(e) => Err(e),
    }
}

/// The bytes of records, one after the other; none where one cannot be
/// written.
pub open spec fn spec_write_list<T: WireRecord>(l: Seq<T::V>) -> Option<Seq<u8>>
    decreases l.len(),
{
    if l.len() == 0 {
        Some(Seq::empty())
    } else {
        match (spec_write_list::<T>(l.drop_last()), T::spec_write(l.last())) {
            (Some(a), Some(b)) => Some(a + b),
            _ => None,
        }
    }
}

/// What the records of a vector hold.
pub open spec fn records_view<T: WireRecord, const N: usize>(v: &Vec<T, N>) -> Seq<T::V> {
    Seq::new(v@.len(), |i: int| v@[i].rec_view())
}

/// A list outcome with `pre` read before it.
pub open spec fn list_prepend<V>(pre: Seq<V>, r: Result<Seq<V>, ParseError>) -> Result<Seq<V>, ParseError> {
    match r {
        Ok(rest) => Ok(pre + rest),
        Err(e) => Err(e),
    }
}

/// Reads the records from `off` to the end (see [`spec_read_records`]).
pub fn read_records<T: WireRecord>(bytes: &[u8], off: usize) -> (r: Result<Vec<T, 64>, ParseError>)
    ensures
        match r {
            Ok(v) => spec_read_records::<T>(bytes@, off as int) == Ok::<Seq<T::V>, ParseError>(records_view(&v)),
            Err(e) => spec_read_records::<T>(bytes@, off as int) == Err::<Seq<T::V>, ParseError>(e),
        },
{
    let ghost s = bytes@;
    let ghost whole = spec_read_list::<T>(s, off as int);
    let mut acc: std::vec::Vec<T> = std::vec::Vec::new();
    let mut cur = off;
    proof {
        assert(Seq::new(acc@.len(), |i: int| acc@[i].rec_view()) =~= Seq::<T::V>::empty());
        match whole {
            Ok(l) => {
                assert(Seq::<T::V>::empty() + l =~= l);
            },
            _ => {},
        }
    }
    while cur < bytes.len()
        invariant
            s == bytes@,
            off <= cur,
            whole == spec_read_list::<T>(s, off as int),
            whole == list_prepend(
                Seq::new(acc@.len(), |i: int| acc@[i].rec_view()),
                spec_read_list::<T>(s, cur as int),
            ),
        decreases s.len() - cur,
    {
        match T::read(bytes, cur) {
            Ok((x, n)) => {
                let ghost before = Seq::new(acc@.len(), |i: int| acc@[i].rec_view());
                let ghost v = x.rec_view();
                acc.push(x);
                proof {
                    let after = Seq::new(acc@.len(), |i: int| acc@[i].rec_view());
                    assert(after =~= before.push(v));
                    match spec_read_list::<T>(s, cur + n) {
                        Ok(rest) => {
                            assert(before + (seq![v] + rest) =~= after + rest);
                        },
                        _ => {},
                    }
                }
                cur = cur + n;
            },
            Err(e) => {
                return Err(e);
            },
        }
    }
    proof {
        let l = Seq::new(acc@.len(), |i: int| acc@[i].rec_view());
        assert(l + Seq::<T::V>::empty() =~= l);
    }
    let n = acc.len();
    match Vec::<T, 64>::from_vec(acc) {
        Ok(v) => {
            proof {
                assert(records_view(&v) =~= Seq::new(n as nat, |i: int| v@[i].rec_view()));
            }
            Ok(v)
        },
        Err(_) => Err(ParseError::BadInput),
    }
}

/// A list with a record that cannot be written cannot be written.
proof fn lemma_write_list_prefix<T: WireRecord>(l: Seq<T::V>, k: int)
    requires
        0 <= k <= l.len(),
        spec_write_list::<T>(l.subrange(0, k)) is None,
    ensures
        spec_write_list::<T>(l) is None,
    decreases l.len() - k,
{
    if k < l.len() {
        assert(l.subrange(0, k + 1).drop_last() =~= l.subrange(0, k));
        lemma_write_list_prefix::<T>(l, k + 1);
    } else {
        assert(l.subrange(0, k) =~= l);
    }
}

/// Appends the records of `v` (see [`spec_write_list`]).
pub fn write_records<T: WireRecord, const N: usize>(v: &Vec<T, N>, out: &mut std::vec::Vec<u8>) -> (r: Result<(), ParseError>)
    ensures
        r is Ok <==> spec_write_list::<T>(records_view(v)) is Some,
        r is Ok ==> final(out)@ == old(out)@ + spec_write_list::<T>(records_view(v))->Some_0,
{
    let ghost l = records_view(v);
    let ghost start = out@;
    let n = v.len();
    let mut i: usize = 0;
    proof {
        assert(l.subrange(0, 0) =~= Seq::<T::V>::empty());
        assert(start + Seq::<u8>::empty() =~= start);
    }
    while i < n
        invariant
            n == v@.len(),
            l == records_view(v),
            i <= n,
            spec_write_list::<T>(l.subrange(0, i as int)) is Some,
            out@ == start + spec_write_list::<T>(l.subrange(0, i as int))->Some_0,
        decreases n - i,
    {
        let ghost before = out@;
        let w = v.get(i).write(out);
        proof {
            assert(l.subrange(0, i + 1).drop_last() =~= l.subrange(0, i as int));
            assert(l.subrange(0, i + 1).last() == v@[i as int].rec_view());
        }
        match w {
            Ok(()) => {
                proof {
                    assert(out@ =~= start + spec_write_list::<T>(l.subrange(0, i + 1))->Some_0);
                }
            },
            Err(e) => {
                proof {
                    lemma_write_list_prefix::<T>(l, i + 1);
                }
                return Err(e);
            },
        }
        i = i + 1;
    }
    proof {
        assert(l.subrange(0, n as int) =~= l);
    }
    Ok(())
}

} // verus!
