//! The kubeconfig document: named clusters, users and contexts.
use vstd::prelude::*;

verus! {

/// Client-side preferences of the document; carried, not interpreted.
pub struct Preferences {
    pub colors: Option<bool>,
}

/// How to reach one API server.
pub struct Cluster {
    pub server: String,
    pub insecure_skip_tls_verify: Option<bool>,
    /// Path of a CA bundle file.
    pub certificate_authority: Option<String>,
    /// Inline CA bundle, base64-encoded.
    pub certificate_authority_data: Option<String>,
}

/// The credential plugin to run for a user.
pub struct ExecConfig {
    pub api_version: Option<String>,
    pub command: String,
    pub args: Vec<String>,
    /// Extra environment of the plugin process, as (name, value) pairs.
    pub env: Vec<(String, String)>,
}

/// The credentials of one user. The fields are alternatives, resolved in a
/// fixed order of precedence.
pub struct AuthInfo {
    pub username: Option<String>,
    pub password: Option<String>,
    pub token: Option<String>,
    pub token_file: Option<String>,
    pub client_certificate: Option<String>,
    pub client_certificate_data: Option<String>,
    pub client_key: Option<String>,
    pub client_key_data: Option<String>,
    pub exec_config: Option<ExecConfig>,
}

/// A pairing of a cluster and a user by name, with a namespace.
pub struct Context {
    pub cluster: String,
    pub user: String,
    pub namespace: Option<String>,
}

pub struct NamedCluster {
    pub name: String,
    pub cluster: Cluster,
}

pub struct NamedAuthInfo {
    pub name: String,
    pub user: AuthInfo,
}

pub struct NamedContext {
    pub name: String,
    pub context: Context,
}

/// A whole kubeconfig document.
pub struct Config {
    pub current_context: String,
    pub clusters: Vec<NamedCluster>,
    pub users: Vec<NamedAuthInfo>,
    pub contexts: Vec<NamedContext>,
    pub preferences: Preferences,
}

/// An entry of one of the document's named lists.
pub trait Named {
    spec fn name_view(&self) -> Seq<char>;

    fn name(&self) -> (r: &String)
        ensures
            r@ == self.name_view(),
    ;
}

impl Named for NamedCluster {
    open spec fn name_view(&self) -> Seq<char> {
        self.name@
    }

    fn name(&self) -> (r: &String) {
        &self.name
    }
}

impl Named for NamedAuthInfo {
    open spec fn name_view(&self) -> Seq<char> {
        self.name@
    }

    fn name(&self) -> (r: &String) {
        &self.name
    }
}

impl Named for NamedContext {
    open spec fn name_view(&self) -> Seq<char> {
        self.name@
    }

    fn name(&self) -> (r: &String) {
        &self.name
    }
}

/// `i` is the first position of `s` whose entry is called `name`.
pub open spec fn first_named<T: Named>(s: Seq<T>, name: Seq<char>, i: int) -> bool {
    &&& 0 <= i < s.len()
    &&& s[i].name_view() == name
    &&& forall|j: int| 0 <= j < i ==> s[j].name_view() != name
}

/// Some entry of `s` is called `name`.
pub open spec fn has_named<T: Named>(s: Seq<T>, name: Seq<char>) -> bool {
    exists|i: int| 0 <= i < s.len() && s[i].name_view() == name
}

/// The entry that a lookup of `name` in `s` finds: the first one so called.
pub open spec fn lookup<T: Named>(s: Seq<T>, name: Seq<char>) -> T
    recommends
        has_named(s, name),
{
    s[choose|i: int| first_named(s, name, i)]
}

/// There is one first position of a name.
pub proof fn lemma_first_named_unique<T: Named>(s: Seq<T>, name: Seq<char>, i: int)
    requires
        first_named(s, name, i),
    ensures
        has_named(s, name),
        lookup(s, name) == s[i],
{
    let k = choose|k: int| first_named(s, name, k);
    assert(first_named(s, name, k));
    if k < i {
        assert(s[k].name_view() != name);
    } else if i < k {
        assert(s[i].name_view() != name);
    }
}

/// Position of the first entry of `v` called `name`, if any.
pub fn find_named<T: Named>(v: &Vec<T>, name: &String) -> (r: Option<usize>)
    ensures
        match r {
            Some(i) => first_named(v@, name@, i as int),
            None => !has_named(v@, name@),
        },
{
    let mut i: usize = 0;
    while i < v.len()
        invariant
            i <= v@.len(),
            forall|j: int| 0 <= j < i ==> v@[j].name_view() != name@,
        decreases v@.len() - i,
    {
        if *v[i].name() == *name {
            return Some(i);
        }
        i = i + 1;
    }
    None
}

} // verus!
