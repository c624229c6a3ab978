//! Selection of the active context, cluster and user of a kubeconfig document.
use vstd::prelude::*;
use vstd::string::StringExecFns;
use crate::apis::{
    find_named, has_named, lemma_first_named_unique, lookup, AuthInfo, Cluster, Config, Context,
};
use crate::error::ConfigError;

verus! {

/// The context, cluster and user chosen from a document for one build.
pub struct KubeConfigLoader {
    pub current_context: Context,
    pub cluster: Cluster,
    pub user: AuthInfo,
}

/// Name of the context in effect: the override, else the document's current one.
pub open spec fn context_name(config: Config, context: Option<String>) -> Seq<char> {
    match context {
        Some(c) => c@,
        None => config.current_context@,
    }
}

/// The context in effect.
pub open spec fn selected_context(config: Config, context: Option<String>) -> Context {
    lookup(config.contexts@, context_name(config, context)).context
}

/// Name of the cluster in effect: the override, else the context's.
pub open spec fn cluster_name(config: Config, context: Option<String>, cluster: Option<String>) -> Seq<char> {
    match cluster {
        Some(c) => c@,
        None => selected_context(config, context).cluster@,
    }
}

/// Name of the user in effect: the override, else the context's.
pub open spec fn user_name(config: Config, context: Option<String>, user: Option<String>) -> Seq<char> {
    match user {
        Some(u) => u@,
        None => selected_context(config, context).user@,
    }
}

/// The name of the context in effect has an entry.
pub open spec fn context_found(config: Config, context: Option<String>) -> bool {
    has_named(config.contexts@, context_name(config, context))
}

/// The names of the context, cluster and user in effect all have entries.
pub open spec fn selection_found(
    config: Config,
    context: Option<String>,
    cluster: Option<String>,
    user: Option<String>,
) -> bool {
    &&& context_found(config, context)
    &&& has_named(config.clusters@, cluster_name(config, context, cluster))
    &&& has_named(config.users@, user_name(config, context, user))
}

impl KubeConfigLoader {
    /// Selects from `config` the context named by `context` (else the current
    /// one), then the cluster and user named by the overrides (else by the
    /// context). A name with no entry is an error of its own kind, checked in
    /// that order.
    pub fn load(
        config: Config,
        context: Option<String>,
        cluster: Option<String>,
        user: Option<String>,
    ) -> (r: Result<KubeConfigLoader, ConfigError>)
        ensures
            !context_found(config, context) ==> (r matches Err(ConfigError::ContextNotFound(n))
                && n@ == context_name(config, context)),
            context_found(config, context) && !has_named(
                config.clusters@,
                cluster_name(config, context, cluster),
            ) ==> (r matches Err(ConfigError::ClusterNotFound(n)) && n@ == cluster_name(
                config,
                context,
                cluster,
            )),
            context_found(config, context) && has_named(
                config.clusters@,
                cluster_name(config, context, cluster),
            ) && !has_named(config.users@, user_name(config, context, user)) ==> (r matches Err(
                ConfigError::UserNotFound(n),
            ) && n@ == user_name(config, context, user)),
            selection_found(config, context, cluster, user) <==> r is Ok,
            r matches Ok(l) ==> {
                &&& l.current_context == selected_context(config, context)
                &&& l.cluster == lookup(config.clusters@, cluster_name(config, context, cluster)).cluster
                &&& l.user == lookup(config.users@, user_name(config, context, user)).user
            },
    {
        let mut doc = config;
        let ctx_name = match context {
            Some(c) => c,
            None => doc.current_context.clone(),
        };
        let ci = match find_named(&doc.contexts, &ctx_name) {
            Some(i) => i,
            None => return Err(ConfigError::ContextNotFound(ctx_name)),
        };
        proof {
            lemma_first_named_unique(doc.contexts@, ctx_name@, ci as int);
        }
        let ctx = doc.contexts.remove(ci).context;
        let cl_name = match cluster {
            Some(c) => c,
            None => ctx.cluster.clone(),
        };
        let ki = match find_named(&doc.clusters, &cl_name) {
            Some(i) => i,
            None => return Err(ConfigError::ClusterNotFound(cl_name)),
        };
        proof {
            lemma_first_named_unique(doc.clusters@, cl_name@, ki as int);
        }
        let us_name = match user {
            Some(u) => u,
            None => ctx.user.clone(),
        };
        let ui = match find_named(&doc.users, &us_name) {
            Some(i) => i,
            None => return Err(ConfigError::UserNotFound(us_name)),
        };
        proof {
            lemma_first_named_unique(doc.users@, us_name@, ui as int);
        }
        let cl = doc.clusters.remove(ki).cluster;
        let us = doc.users.remove(ui).user;
        Ok(KubeConfigLoader { current_context: ctx, cluster: cl, user: us })
    }

    /// The namespace of the selected context, or "default" where it sets none.
    pub fn namespace(&self) -> (r: String)
        ensures
            r@ == match self.current_context.namespace {
                Some(n) => n@,
                None => "default"@,
            },
    {
        match &self.current_context.namespace {
            Some(n) => n.clone(),
            None => String::from_str("default"),
        }
    }
}

} // verus!
