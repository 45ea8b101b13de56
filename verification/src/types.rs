//! Core data model: the per-job descriptor, the deploy variant, the client
//! classification and the file-cleaning summary.

use vstd::prelude::*;
use crate::strutil::str_eq;

verus! {

use vstd::string::StrSliceExecFns;
use vstd::string::StringExecFns;

/// Counters produced by the file cleaner.  Derived, never persisted.
#[derive(Debug, Copy, Clone, PartialEq, Eq, Structural)]
pub struct FileSummary {
    pub ignored: i32,
    pub removed_fail: i32,
    pub removed_success: i32,
}

impl FileSummary {
    /// The number of regular files the cleaner visited.
    pub fn total(&self) -> (r: i32)
        requires
            i32::MIN <= self.ignored + self.removed_fail <= i32::MAX,
            i32::MIN <= self.ignored + self.removed_fail + self.removed_success <= i32::MAX,
        ensures
            r == self.ignored + self.removed_fail + self.removed_success,
    {
        self.ignored + self.removed_fail + self.removed_success
    }
}

/// The deploy variant: a plain static site, or one carrying an edge function.
#[derive(Debug, PartialEq, Eq, Copy, Clone, Structural)]
pub enum DeployType {
    Static,
    CloudflareFunction,
}

impl Default for DeployType {
    fn default() -> (r: Self)
        ensures
            r == DeployType::Static,
    {
        DeployType::Static
    }
}

/// The variant denoted by a wire-format label: `static` and
/// `cloudflare_function` name themselves; anything else falls back to
/// `Static`.
pub open spec fn deploy_type_of_label(label: Seq<char>) -> DeployType {
    if label == "cloudflare_function"@ {
        DeployType::CloudflareFunction
    } else {
        DeployType::Static
    }
}

impl From<String> for DeployType {
    fn from(value: String) -> (r: Self) {
        if str_eq(value.as_str(), "cloudflare_function") {
            DeployType::CloudflareFunction
        } else {
            DeployType::Static
        }
    }
}

impl vstd::std_specs::convert::FromSpecImpl<String> for DeployType {
    open spec fn obeys_from_spec() -> bool {
        true
    }

    open spec fn from_spec(value: String) -> DeployType {
        deploy_type_of_label(value@)
    }
}

/// The deployment environment a client identifier belongs to, read from the
/// identifier's first character.
#[derive(Debug, Copy, Clone, Eq, PartialEq, Structural)]
pub enum ClientType {
    Production,
    Staging,
    Development,
    Unknown,
}

impl ClientType {
    /// The API base address of the environment; `Unknown` has none.
    pub fn api_base(&self) -> (r: Option<&'static str>)
        ensures
            match self {
                ClientType::Production => r matches Some(s) && s@ == "https://api.stori.press"@,
                ClientType::Staging => r matches Some(s) && s@ == "https://api.storipress.pro"@,
                ClientType::Development => r matches Some(s) && s@ == "https://api.storipress.dev"@,
                ClientType::Unknown => r is None,
            },
    {
        let base = match self {
            ClientType::Production => "https://api.stori.press",
            ClientType::Staging => "https://api.storipress.pro",
            ClientType::Development => "https://api.storipress.dev",
            ClientType::Unknown => {
                return None;
            },
        };
        Some(base)
    }
}

/// The environment denoted by a client identifier.
pub open spec fn client_type_of(client_id: Seq<char>) -> ClientType {
    if client_id.len() == 0 {
        ClientType::Unknown
    } else if client_id[0] == 'P' {
        ClientType::Production
    } else if client_id[0] == 'S' {
        ClientType::Staging
    } else if client_id[0] == 'D' {
        ClientType::Development
    } else {
        ClientType::Unknown
    }
}

/// True when a declared source generator forces the edge-function variant.
pub open spec fn is_next_gen_source(source: Option<String>) -> bool {
    match source {
        Some(s) => s@ == "generator-next"@ || s@ == "generator-v2"@,
        None => false,
    }
}

/// One unit of work: the identifiers, variant and credentials of a single
/// release to deploy.
#[derive(Debug)]
pub struct DeployMeta {
    pub page_id: String,
    pub client_id: String,
    pub release_id: String,
    pub source: Option<String>,
    pub output_path: Option<String>,
    pub token: Option<String>,
    pub deploy_type: DeployType,
}

impl Default for DeployMeta {
    fn default() -> (r: Self)
        ensures
            r.page_id@ == Seq::<char>::empty(),
            r.client_id@ == Seq::<char>::empty(),
            r.release_id@ == Seq::<char>::empty(),
            r.source is None,
            r.output_path is None,
            r.token is None,
            r.deploy_type == DeployType::Static,
    {
        DeployMeta {
            page_id: String::new(),
            client_id: String::new(),
            release_id: String::new(),
            source: None,
            output_path: None,
            token: None,
            deploy_type: DeployType::Static,
        }
    }
}

impl DeployMeta {
    /// Force the edge-function variant when the declared source generator is
    /// one of the next-generation set; leave the variant untouched otherwise.
    pub fn derive_deploy_type_from_source(&mut self)
        ensures
            final(self).deploy_type == if is_next_gen_source(old(self).source) {
                DeployType::CloudflareFunction
            } else {
                old(self).deploy_type
            },
            final(self).page_id == old(self).page_id,
            final(self).client_id == old(self).client_id,
            final(self).release_id == old(self).release_id,
            final(self).source == old(self).source,
            final(self).output_path == old(self).output_path,
            final(self).token == old(self).token,
    {
        let forced = match &self.source {
            Some(s) => str_eq(s.as_str(), "generator-next") || str_eq(s.as_str(), "generator-v2"),
            None => false,
        };
        if forced {
            self.deploy_type = DeployType::CloudflareFunction;
        }
    }

    /// The environment this job's client identifier belongs to.
    pub fn client_type(&self) -> (r: ClientType)
        ensures
            r == client_type_of(self.client_id@),
    {
        if self.client_id.as_str().is_empty() {
            return ClientType::Unknown;
        }
        let c = self.client_id.as_str().get_char(0);
        if c == 'P' {
            ClientType::Production
        } else if c == 'S' {
            ClientType::Staging
        } else if c == 'D' {
            ClientType::Development
        } else {
            ClientType::Unknown
        }
    }

    /// The job's auth token, or the empty string when none was attached.
    pub fn token(&self) -> (r: &str)
        ensures
            self.token matches Some(t) ==> r@ == t@,
            self.token is None ==> r@ == Seq::<char>::empty(),
    {
        match &self.token {
            Some(t) => t.as_str(),
            None => {
                let r = "";
                proof {
                    reveal_strlit("");
                }
                r
            },
        }
    }

    /// True for the static variant, which self-hosts its assets.
    pub fn is_static(&self) -> (r: bool)
        ensures
            r == (self.deploy_type == DeployType::Static),
    {
        matches!(self.deploy_type, DeployType::Static)
    }

    /// The GraphQL endpoint for this job's client, or an error when the
    /// client identifier names no known environment.
    pub fn api_host(&self) -> (r: Result<String, ()>)
        ensures
            match r {
                Ok(host) => {
                    &&& client_type_of(self.client_id@) != ClientType::Unknown
                    &&& host@ == api_base_view(client_type_of(self.client_id@)) + "/client/"@
                        + self.client_id@ + "/graphql"@
                },
                Err(_) => client_type_of(self.client_id@) == ClientType::Unknown,
            },
    {
        let base = match self.client_type().api_base() {
            Some(base) => base,
            None => {
                return Err(());
            },
        };
        let mut host = base.to_owned();
        host.append("/client/");
        host.append(self.client_id.as_str());
        host.append("/graphql");
        Ok(host)
    }

    /// The address the deployed page is served from: the lowercased client
    /// identifier as subdomain of the page's project domain.
    pub fn cloudflare_page_url(&self) -> (r: String)
        ensures
            r@ == "https://"@ + crate::strutil::lower_of(self.client_id@) + "."@ + self.page_id@
                + ".pages.dev"@,
    {
        let mut url = "https://".to_owned();
        let lowered = crate::strutil::to_lowercase(self.client_id.as_str());
        url.append(lowered.as_str());
        url.append(".");
        url.append(self.page_id.as_str());
        url.append(".pages.dev");
        url
    }
}

/// The characters of the API base address of each known environment.
pub open spec fn api_base_view(t: ClientType) -> Seq<char> {
    match t {
        ClientType::Production => "https://api.stori.press"@,
        ClientType::Staging => "https://api.storipress.pro"@,
        ClientType::Development => "https://api.storipress.dev"@,
        ClientType::Unknown => Seq::<char>::empty(),
    }
}

} // verus!
