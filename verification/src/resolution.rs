//! Direct resolutions: where a package or an index is fetched from.

use vstd::prelude::*;
use vstd::std_specs::cmp::PartialEqSpecImpl;
use vstd::string::*;

verus! {

/// Mathematical value of a [`DirectRes`].
pub enum ResView {
    Tar { url: Seq<char>, cksum: Seq<char> },
    Git { url: Seq<char>, reference: Seq<char> },
    Dir { path: Seq<char> },
}

impl ResView {
    /// The canonical text: a tag for the variant, the location, and after a
    /// `#` the checksum or reference where the variant has one.
    pub open spec fn canonical(self) -> Seq<char> {
        match self {
            ResView::Tar { url, cksum } => seq!['t', 'a', 'r', '+'] + url + seq!['#'] + cksum,
            ResView::Git { url, reference } => seq!['g', 'i', 't', '+'] + url + seq!['#']
                + reference,
            ResView::Dir { path } => seq!['d', 'i', 'r', '+'] + path,
        }
    }
}

/// A concrete locator: a tarball with its checksum, a repository with a
/// reference to check out, or a local directory.
#[derive(Debug)]
pub enum DirectRes {
    Tar { url: String, cksum: String },
    Git { url: String, reference: String },
    Dir { path: String },
}

impl View for DirectRes {
    type V = ResView;

    open spec fn view(&self) -> ResView {
        match self {
            DirectRes::Tar { url, cksum } => ResView::Tar { url: url@, cksum: cksum@ },
            DirectRes::Git { url, reference } => ResView::Git { url: url@, reference: reference@ },
            DirectRes::Dir { path } => ResView::Dir { path: path@ },
        }
    }
}

impl Clone for DirectRes {
    fn clone(&self) -> (r: Self)
        ensures
            r@ == self@,
    {
        match self {
            DirectRes::Tar { url, cksum } => DirectRes::Tar {
                url: url.clone(),
                cksum: cksum.clone(),
            },
            DirectRes::Git { url, reference } => DirectRes::Git {
                url: url.clone(),
                reference: reference.clone(),
            },
            DirectRes::Dir { path } => DirectRes::Dir { path: path.clone() },
        }
    }
}

impl PartialEq for DirectRes {
    fn eq(&self, other: &Self) -> (r: bool) {
        match (self, other) {
            (DirectRes::Tar { url, cksum }, DirectRes::Tar { url: u, cksum: c }) => {
                let r = *url == *u && *cksum == *c;
                assert(r == (self@ == other@));
                r
            },
            (DirectRes::Git { url, reference }, DirectRes::Git { url: u, reference: c }) => {
                let r = *url == *u && *reference == *c;
                assert(r == (self@ == other@));
                r
            },
            (DirectRes::Dir { path }, DirectRes::Dir { path: p }) => {
                let r = *path == *p;
                assert(r == (self@ == other@));
                r
            },
            _ => false,
        }
    }
}

impl PartialEqSpecImpl for DirectRes {
    open spec fn obeys_eq_spec() -> bool {
        true
    }

    open spec fn eq_spec(&self, other: &Self) -> bool {
        self@ == other@
    }
}

impl Eq for DirectRes {

}

impl DirectRes {
    /// Whether this is a local directory.
    pub fn is_dir(&self) -> (r: bool)
        ensures
            r == (self@ is Dir),
    {
        match self {
            DirectRes::Dir { .. } => true,
            _ => false,
        }
    }

    /// Whether this is a tarball.
    pub fn is_tar(&self) -> (r: bool)
        ensures
            r == (self@ is Tar),
    {
        match self {
            DirectRes::Tar { .. } => true,
            _ => false,
        }
    }

    /// The canonical text of this resolution.
    pub fn canonical_string(&self) -> (text: String)
        ensures
            text@ == self@.canonical(),
    {
        proof {
            reveal_strlit("tar+");
            reveal_strlit("git+");
            reveal_strlit("dir+");
            reveal_strlit("#");
        }
        match self {
            DirectRes::Tar { url, cksum } => {
                let mut text = String::from_str("tar+");
                text.append(url.as_str());
                text.append("#");
                text.append(cksum.as_str());
                assert(text@ =~= self@.canonical());
                text
            },
            DirectRes::Git { url, reference } => {
                let mut text = String::from_str("git+");
                text.append(url.as_str());
                text.append("#");
                text.append(reference.as_str());
                assert(text@ =~= self@.canonical());
                text
            },
            DirectRes::Dir { path } => {
                let mut text = String::from_str("dir+");
                text.append(path.as_str());
                assert(text@ =~= self@.canonical());
                text
            },
        }
    }
}

/// The values of a list of resolutions, in order.
pub open spec fn res_views(list: Seq<DirectRes>) -> Seq<ResView> {
    list.map_values(|r: DirectRes| r@)
}

/// The values of a list that grew by one item are the values of the list,
/// grown by the value of the item.
pub proof fn lemma_res_views_push(list: Seq<DirectRes>, item: DirectRes)
    ensures
        res_views(list.push(item)) == res_views(list).push(item@),
{
    assert(res_views(list.push(item)) =~= res_views(list).push(item@));
}

/// Whether `item` occurs in `list`.
pub fn contains_res(list: &Vec<DirectRes>, item: &DirectRes) -> (found: bool)
    ensures
        found == res_views(list@).contains(item@),
{
    let mut i: usize = 0;
    while i < list.len()
        invariant
            i <= list.len(),
            forall|j: int| 0 <= j < i ==> list[j]@ != item@,
        decreases list.len() - i,
    {
        if list[i] == *item {
            proof {
                assert(res_views(list@)[i as int] == item@);
            }
            return true;
        }
        i += 1;
    }
    false
}

} // verus!
