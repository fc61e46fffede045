//! Fingerprints of builds.

use crate::digest::{append_bytes, fingerprint, sha256_hex};
use crate::source::Source;
use vstd::prelude::*;
use vstd::std_specs::cmp::PartialEqSpecImpl;
use vstd::string::*;
use vstd::utf8::*;

verus! {

/// The content hashes of a list of sources, in order.
pub open spec fn content_hashes(sources: Seq<Source>) -> Seq<Seq<char>> {
    sources.map_values(|s: Source| s@.hash)
}

/// The bytes of all the texts, one after the other.
pub open spec fn concat_bytes(parts: Seq<Seq<char>>) -> Seq<u8>
    decreases parts.len(),
{
    if parts.len() == 0 {
        Seq::<u8>::empty()
    } else {
        concat_bytes(parts.drop_last()) + encode_utf8(parts.last())
    }
}

/// The fingerprint of a build: a hexadecimal digest over the content
/// hashes of the sources that go into it.
#[derive(Debug)]
pub struct BuildHash(pub String);

impl View for BuildHash {
    type V = Seq<char>;

    open spec fn view(&self) -> Seq<char> {
        self.0@
    }
}

impl Clone for BuildHash {
    fn clone(&self) -> (r: Self)
        ensures
            r@ == self@,
    {
        BuildHash(self.0.clone())
    }
}

impl PartialEq for BuildHash {
    fn eq(&self, other: &Self) -> (r: bool) {
        self.0 == other.0
    }
}

impl PartialEqSpecImpl for BuildHash {
    open spec fn obeys_eq_spec() -> bool {
        true
    }

    open spec fn eq_spec(&self, other: &Self) -> bool {
        self@ == other@
    }
}

impl Eq for BuildHash {

}

impl BuildHash {
    /// The fingerprint of the build of a package from `sub_tree`: the
    /// package's own source and the sources it depends on, in the order in
    /// which the dependency graph hands them out. Another order gives
    /// another fingerprint.
    pub fn new(sub_tree: &Vec<Source>) -> (h: BuildHash)
        ensures
            h@ == fingerprint(concat_bytes(content_hashes(sub_tree@))),
            h@.len() == 64,
    {
        let mut data: Vec<u8> = Vec::new();
        let mut i: usize = 0;
        while i < sub_tree.len()
            invariant
                i <= sub_tree.len(),
                data@ == concat_bytes(content_hashes(sub_tree@.take(i as int))),
            decreases sub_tree.len() - i,
        {
            append_bytes(&mut data, sub_tree[i].hash().as_bytes());
            proof {
                let next = content_hashes(sub_tree@.take(i as int + 1));
                assert(next.drop_last() =~= content_hashes(sub_tree@.take(i as int)));
                assert(next.last() == sub_tree@[i as int]@.hash);
            }
            i += 1;
        }
        proof {
            assert(sub_tree@.take(i as int) =~= sub_tree@);
        }
        BuildHash(sha256_hex(data.as_slice()))
    }

    /// The fingerprint as text.
    pub fn as_str(&self) -> (s: &str)
        ensures
            s@ == self@,
    {
        self.0.as_str()
    }

    /// Whether two fingerprints are the same.
    pub fn same(&self, other: &BuildHash) -> (r: bool)
        ensures
            r == (self@ == other@),
    {
        self.0 == other.0
    }
}

} // verus!
