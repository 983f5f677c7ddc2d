//! The manifest data model: a generic resource document surfacing what the
//! reconciler reads (type identity, name, namespace, annotations) while the
//! full payload travels through verbatim for the apply call.

use vstd::prelude::*;

use crate::strutil::str_eq;

verus! {

/// A group/version/kind triple: the three-part type identifier for a
/// resource kind in a cluster-management API.
#[derive(Debug, PartialEq, Eq)]
pub struct Gvk {
    pub group: String,
    pub version: String,
    pub kind: String,
}

/// One declarative resource document.
///
/// `api_version` and `kind` identify the resource type (the API version is
/// the `group/version` pair in one string, the group absent for the core
/// API). The `payload` is the full document, already serialized, handed to
/// the apply call verbatim.
pub struct Manifest {
    pub api_version: String,
    pub kind: String,
    pub name: String,
    pub namespace: Option<String>,
    pub annotations: Vec<(String, String)>,
    pub payload: String,
}

/// Whether `s` holds a `/` anywhere.
pub open spec fn has_slash(s: Seq<char>) -> bool {
    exists|i: int| 0 <= i < s.len() && s[i] == '/'
}

/// Whether position `p` holds the first `/` of `s`.
pub open spec fn first_slash_at(s: Seq<char>, p: int) -> bool {
    &&& 0 <= p < s.len()
    &&& s[p] == '/'
    &&& forall|j: int| 0 <= j < p ==> s[j] != '/'
}

/// The group and version that an API version string denotes: what precedes
/// the first `/` and what follows it, the group empty when there is no `/`.
pub open spec fn spec_split_group_version(s: Seq<char>) -> (Seq<char>, Seq<char>) {
    if has_slash(s) {
        let p = choose|p: int| first_slash_at(s, p);
        (s.take(p), s.skip(p + 1))
    } else {
        (Seq::empty(), s)
    }
}

/// The first slash of a string sits at one position only.
pub proof fn lemma_first_slash_unique(s: Seq<char>, p1: int, p2: int)
    requires
        first_slash_at(s, p1),
        first_slash_at(s, p2),
    ensures
        p1 == p2,
{
    if p1 < p2 {
        assert(s[p1] != '/');
    }
    if p2 < p1 {
        assert(s[p2] != '/');
    }
}

/// The position of the first `/` of `s`, if any.
fn find_first_slash(s: &str) -> (r: Option<usize>)
    ensures
        match r {
            Some(p) => first_slash_at(s@, p as int),
            None => !has_slash(s@),
        },
{
    let n = s.unicode_len();
    let mut i: usize = 0;
    while i < n
        invariant
            0 <= i <= n,
            n == s@.len(),
            forall|j: int| 0 <= j < i ==> s@[j] != '/',
        decreases n - i,
    {
        if s.get_char(i) == '/' {
            return Some(i);
        }
        i = i + 1;
    }
    None
}

impl Gvk {
    /// Resolves the type identity of a manifest: splits the API version at
    /// its first `/` into group and version; with no `/` the group is empty
    /// and the version is the whole string.
    pub fn from_api_version(api_version: &str, kind: &str) -> (r: Gvk)
        ensures
            r.group@ == spec_split_group_version(api_version@).0,
            r.version@ == spec_split_group_version(api_version@).1,
            r.kind@ == kind@,
    {
        let n = api_version.unicode_len();
        let slash = find_first_slash(api_version);
        match slash {
            Some(p) => {
                proof {
                    assert(first_slash_at(api_version@, p as int));
                    let q = choose|q: int| first_slash_at(api_version@, q);
                    lemma_first_slash_unique(api_version@, p as int, q);
                }
                Gvk {
                    group: api_version.substring_char(0, p).to_owned(),
                    version: api_version.substring_char(p + 1, n).to_owned(),
                    kind: kind.to_owned(),
                }
            },
            None => {
                Gvk {
                    group: String::new(),
                    version: api_version.to_owned(),
                    kind: kind.to_owned(),
                }
            },
        }
    }
}

/// The value under `key` in an annotation listing: the first pair whose key
/// matches, searched front to back.
pub open spec fn spec_lookup(anns: Seq<(String, String)>, key: Seq<char>) -> Option<String>
    decreases anns.len(),
{
    if anns.len() == 0 {
        None
    } else if anns[0].0@ == key {
        Some(anns[0].1)
    } else {
        spec_lookup(anns.drop_first(), key)
    }
}

impl Manifest {
    /// The manifest's annotation value under `key`, if any.
    pub fn annotation<'a>(&'a self, key: &str) -> (r: Option<&'a String>)
        ensures
            match r {
                Some(v) => spec_lookup(self.annotations@, key@) == Some(*v),
                None => spec_lookup(self.annotations@, key@) is None,
            },
    {
        let n = self.annotations.len();
        let mut i: usize = 0;
        proof {
            assert(self.annotations@.skip(0) =~= self.annotations@);
        }
        while i < n
            invariant
                0 <= i <= n,
                n == self.annotations@.len(),
                spec_lookup(self.annotations@.skip(i as int), key@) == spec_lookup(
                    self.annotations@,
                    key@,
                ),
            decreases n - i,
        {
            let pair = &self.annotations[i];
            if str_eq(pair.0.as_str(), key) {
                assert(self.annotations@.skip(i as int)[0] == self.annotations@[i as int]);
                return Some(&self.annotations[i].1);
            }
            proof {
                assert(self.annotations@.skip(i as int)[0] == self.annotations@[i as int]);
                assert(self.annotations@.skip(i as int).drop_first() =~= self.annotations@.skip(
                    i as int + 1,
                ));
            }
            i = i + 1;
        }
        assert(self.annotations@.skip(n as int).len() == 0);
        None
    }
}

} // verus!
