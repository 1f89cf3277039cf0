use vstd::prelude::*;

verus! {

/// The bytes of the project tag `PRJ:`.
pub open spec fn project_key() -> Seq<u8> {
    seq![80u8, 82u8, 74u8, 58u8]
}

/// The bytes of the version tag `VER:`.
pub open spec fn version_key() -> Seq<u8> {
    seq![86u8, 69u8, 82u8, 58u8]
}

/// The key occurs in the data at position `j`.
pub open spec fn match_at(data: Seq<u8>, key: Seq<u8>, j: int) -> bool {
    &&& 0 <= j
    &&& j + key.len() <= data.len()
    &&& data.subrange(j, j + key.len() as int) == key
}

/// No two positions of the key hold the same byte.
pub open spec fn distinct_bytes(key: Seq<u8>) -> bool {
    forall|a: int, b: int| 0 <= a < b < key.len() ==> key[a] != key[b]
}

/// One step of the rolling matcher: `i` bytes of the key are matched and
/// `b` arrives. On a mismatch the position resets, and the byte is checked
/// once more against the start of the key.
pub open spec fn scan_step(key: Seq<u8>, i: int, b: u8) -> int
    recommends
        0 <= i < key.len(),
{
    if b == key[i] {
        i + 1
    } else if i == 0 {
        0
    } else if b == key[0] {
        1
    } else {
        0
    }
}

/// What the forward scan yields from a start state: once the whole key has
/// been matched, bytes accumulate until the terminator `$`.
pub open spec fn scan_from(data: Seq<u8>, key: Seq<u8>, i: int) -> Seq<u8>
    decreases data.len(),
{
    if data.len() == 0 {
        Seq::empty()
    } else if i < key.len() {
        scan_from(data.subrange(1, data.len() as int), key, scan_step(key, i, data[0]))
    } else if data[0] == 36 {
        Seq::empty()
    } else {
        seq![data[0]] + scan_from(data.subrange(1, data.len() as int), key, i)
    }
}

/// A value with its leading spaces removed.
pub open spec fn strip_spaces(s: Seq<u8>) -> Seq<u8>
    decreases s.len(),
{
    if s.len() > 0 && s[0] == 32 {
        strip_spaces(s.subrange(1, s.len() as int))
    } else {
        s
    }
}

/// Bytes taken as characters, as the EC's Latin-1 strings are.
pub open spec fn latin1(s: Seq<u8>) -> Seq<char> {
    s.map(|i: int, b: u8| b as char)
}

/// The project value a captured image yields.
pub open spec fn project_spec(data: Seq<u8>) -> Seq<u8> {
    scan_from(data, project_key(), 0)
}

/// The version value a captured image yields.
pub open spec fn version_spec(data: Seq<u8>) -> Seq<u8> {
    strip_spaces(scan_from(data, version_key(), 0))
}

/// Relies on String::push: appends one character at the end.
#[verifier::external_body]
fn push_char(s: &mut String, c: char)
    ensures
        final(s)@ == old(s)@ + seq![c],
{
    s.push(c);
}

/// A Latin-1 string built from raw bytes.
pub(crate) fn bytes_to_string(bytes: &Vec<u8>) -> (r: String)
    ensures
        r@ == latin1(bytes@),
{
    let mut s = String::new();
    let mut i: usize = 0;
    while i < bytes.len()
        invariant
            i <= bytes@.len(),
            s@ == latin1(bytes@.subrange(0, i as int)),
        decreases bytes@.len() - i,
    {
        let c = bytes[i] as char;
        push_char(&mut s, c);
        proof {
            assert(s@ =~= latin1(bytes@.subrange(0, i as int + 1)));
        }
        i = i + 1;
    }
    proof {
        assert(bytes@.subrange(0, bytes@.len() as int) =~= bytes@);
    }
    s
}

/// A captured EC firmware image, answering the same queries as a live EC.
pub struct EcFile(pub Vec<u8>);

impl EcFile {
    /// Wrap a captured image.
    pub fn new(data: Vec<u8>) -> (r: EcFile)
        ensures
            r.0@ == data@,
    {
        EcFile(data)
    }

    /// The forward scan for a `KEY:VALUE$` tag, as raw bytes.
    fn scan_bytes(&self, key: &[u8]) -> (r: Vec<u8>)
        ensures
            r@ == scan_from(self.0@, key@, 0),
    {
        let mut out: Vec<u8> = Vec::new();
        let mut i: usize = 0;
        let mut t: usize = 0;
        let n = self.0.len();
        proof {
            assert(self.0@.subrange(0, n as int) =~= self.0@);
            assert(out@ + scan_from(self.0@, key@, 0) =~= scan_from(self.0@, key@, 0));
        }
        while t < n
            invariant
                t <= n,
                n == self.0@.len(),
                i <= key@.len(),
                scan_from(self.0@, key@, 0) == out@ + scan_from(
                    self.0@.subrange(t as int, n as int),
                    key@,
                    i as int,
                ),
            decreases n - t,
        {
            let ghost pre = self.0@.subrange(t as int, n as int);
            let b = self.0[t];
            proof {
                assert(pre[0] == self.0@[t as int]);
                assert(pre.subrange(1, pre.len() as int) =~= self.0@.subrange(
                    t as int + 1,
                    n as int,
                ));
            }
            if i < key.len() {
                if b == key[i] {
                    i = i + 1;
                } else if i == 0 {
                    // keep scanning for the first key byte
                } else if b == key[0] {
                    i = 1;
                } else {
                    i = 0;
                }
            } else if b == 36 {
                proof {
                    assert(out@ + Seq::<u8>::empty() =~= out@);
                }
                return out;
            } else {
                proof {
                    assert(out@ + (seq![b] + scan_from(
                        pre.subrange(1, pre.len() as int),
                        key@,
                        i as int,
                    )) =~= out@.push(b) + scan_from(pre.subrange(1, pre.len() as int), key@, i as int));
                }
                out.push(b);
            }
            t = t + 1;
        }
        proof {
            assert(self.0@.subrange(n as int, n as int) =~= Seq::<u8>::empty());
            assert(out@ + Seq::<u8>::empty() =~= out@);
        }
        out
    }

    /// The scan as a Latin-1 string: the bytes between the matched key
    /// and the terminator.
    pub fn get_str(&mut self, key: &[u8]) -> (r: String)
        ensures
            final(self).0@ == old(self).0@,
            r@ == latin1(scan_from(old(self).0@, key@, 0)),
    {
        let bytes = self.scan_bytes(key);
        bytes_to_string(&bytes)
    }

    /// The image length in bytes.
    pub fn size(&mut self) -> (r: usize)
        ensures
            final(self).0@ == old(self).0@,
            r == old(self).0@.len(),
    {
        self.0.len()
    }

    /// The value of the `PRJ:` tag.
    pub fn project(&mut self) -> (r: String)
        ensures
            final(self).0@ == old(self).0@,
            r@ == latin1(project_spec(old(self).0@)),
    {
        let key: [u8; 4] = [80, 82, 74, 58];
        proof {
            assert(key@ =~= project_key());
        }
        self.get_str(key.as_slice())
    }

    /// The value of the `VER:` tag, with its leading spaces removed.
    pub fn version(&mut self) -> (r: String)
        ensures
            final(self).0@ == old(self).0@,
            r@ == latin1(version_spec(old(self).0@)),
    {
        let key: [u8; 4] = [86, 69, 82, 58];
        proof {
            assert(key@ =~= version_key());
        }
        let raw = self.scan_bytes(key.as_slice());
        let mut s: usize = 0;
        proof {
            assert(raw@.subrange(0, raw@.len() as int) =~= raw@);
        }
        while s < raw.len() && raw[s] == 32
            invariant
                s <= raw@.len(),
                strip_spaces(raw@) == strip_spaces(raw@.subrange(s as int, raw@.len() as int)),
            decreases raw@.len() - s,
        {
            proof {
                let pre = raw@.subrange(s as int, raw@.len() as int);
                assert(pre[0] == 32);
                assert(pre.subrange(1, pre.len() as int) =~= raw@.subrange(
                    s as int + 1,
                    raw@.len() as int,
                ));
            }
            s = s + 1;
        }
        let mut tail: Vec<u8> = Vec::new();
        let mut k: usize = s;
        while k < raw.len()
            invariant
                s <= k <= raw@.len(),
                tail@ == raw@.subrange(s as int, k as int),
            decreases raw@.len() - k,
        {
            let b = raw[k];
            tail.push(b);
            proof {
                assert(tail@ =~= raw@.subrange(s as int, k as int + 1));
            }
            k = k + 1;
        }
        proof {
            let suffix = raw@.subrange(s as int, raw@.len() as int);
            assert(strip_spaces(suffix) == suffix);
            assert(tail@ == version_spec(old(self).0@));
        }
        bytes_to_string(&tail)
    }
}

} // verus!

use crate::Ec;

verus! {

impl Ec for EcFile {
    fn size(&mut self) -> usize {
        EcFile::size(self)
    }

    fn project(&mut self) -> String {
        EcFile::project(self)
    }

    fn version(&mut self) -> String {
        EcFile::version(self)
    }
}

} // verus!
