//! How goose is found and started.

use crate::config::{Config, McpServerDecl};
use crate::paths::{expand_tilde, path_join, path_joined, tilde_expanded};
use crate::text;
use crate::text::joined;
use vstd::prelude::*;

verus! {

/// Everything needed to start goose pointed at the embedded proxy.
pub struct GooseSpawn {
    pub binary: String,
    pub model: String,
    pub proxy_base_url: String,
    pub api_key: String,
    pub builtins: Vec<String>,
    pub mcp_servers: Vec<McpServerDecl>,
    /// Ask before every tool use. The mode is set explicitly rather than
    /// inherited from the user's goose settings.
    pub approve: bool,
}

/// A copy of the pairs.
pub(crate) fn copy_pairs(v: &Vec<(String, String)>) -> (r: Vec<(String, String)>)
    ensures
        r.deep_view() == v.deep_view(),
{
    let mut out: Vec<(String, String)> = Vec::new();
    let mut i: usize = 0;
    while i < v.len()
        invariant
            i <= v.len(),
            out.deep_view() =~= v.deep_view().take(i as int),
        decreases v.len() - i,
    {
        let ghost before = out.deep_view();
        out.push((v[i].0.clone(), v[i].1.clone()));
        i += 1;
        proof {
            assert(out.deep_view() =~= before.push(v[i - 1].deep_view()));
        }
    }
    proof {
        assert(v.deep_view().take(i as int) =~= v.deep_view());
    }
    out
}

/// A copy of the text, if there is one.
fn copy_maybe(s: &Option<String>) -> (r: Option<String>)
    ensures
        r.deep_view() == s.deep_view(),
{
    match s {
        Some(s) => Some(s.clone()),
        None => None,
    }
}

/// Copies of the servers, in order.
fn copy_servers(v: &Vec<McpServerDecl>) -> (r: Vec<McpServerDecl>)
    ensures
        r.deep_view() == v.deep_view(),
{
    let mut out: Vec<McpServerDecl> = Vec::new();
    let mut i: usize = 0;
    while i < v.len()
        invariant
            i <= v.len(),
            out.deep_view() =~= v.deep_view().take(i as int),
        decreases v.len() - i,
    {
        let ghost before = out.deep_view();
        let d = &v[i];
        out.push(
            McpServerDecl {
                name: d.name.clone(),
                transport: d.transport.clone(),
                command: copy_maybe(&d.command),
                args: text::copy_all(&d.args),
                url: copy_maybe(&d.url),
                env: copy_pairs(&d.env),
            },
        );
        i += 1;
        proof {
            assert(out.deep_view() =~= before.push(v[i - 1].deep_view()));
        }
    }
    proof {
        assert(v.deep_view().take(i as int) =~= v.deep_view());
    }
    out
}

/// The arguments that goose is started with.
pub open spec fn goose_args(builtins: Seq<Seq<char>>) -> Seq<Seq<char>> {
    if builtins.len() == 0 {
        seq!["acp"@]
    } else {
        seq!["acp"@, "--with-builtin"@, joined(builtins, ","@)]
    }
}

/// The settings of goose, which hold for this process only.
pub open spec fn goose_env(
    approve: bool,
    model: Seq<char>,
    proxy: Seq<char>,
    key: Seq<char>,
) -> Seq<(Seq<char>, Seq<char>)> {
    seq![
        (
            "GOOSE_MODE"@,
            if approve {
                "approve"@
            } else {
                "auto"@
            },
        ),
        ("GOOSE_PROVIDER"@, "openai"@),
        ("GOOSE_MODEL"@, model),
        ("OPENAI_HOST"@, proxy),
        ("OPENAI_API_KEY"@, key),
    ]
}

impl GooseSpawn {
    /// What the settings say, with the binary that was found.
    pub fn from_config(
        config: &Config,
        binary: String,
        proxy_base_url: String,
        api_key: String,
    ) -> (s: Self)
        ensures
            s.binary == binary,
            s.model@ == config.agent.model@,
            s.proxy_base_url == proxy_base_url,
            s.api_key == api_key,
            s.builtins.deep_view() == config.agent.builtins.deep_view(),
            s.mcp_servers.deep_view() == config.agent.mcp_servers.deep_view(),
            s.approve,
    {
        GooseSpawn {
            binary,
            model: config.agent.model.clone(),
            proxy_base_url,
            api_key,
            builtins: text::copy_all(&config.agent.builtins),
            mcp_servers: copy_servers(&config.agent.mcp_servers),
            approve: true,
        }
    }

    /// What a run asks for: its own model, and whether tool use is allowed
    /// without asking.
    pub fn for_run(&mut self, model: &Option<String>, yes: bool)
        ensures
            final(self).model@ == match model {
                Some(m) => m@,
                None => old(self).model@,
            },
            final(self).approve == !yes,
            final(self).binary == old(self).binary,
            final(self).proxy_base_url == old(self).proxy_base_url,
            final(self).api_key == old(self).api_key,
            final(self).builtins == old(self).builtins,
            final(self).mcp_servers == old(self).mcp_servers,
    {
        if let Some(m) = model {
            self.model = m.clone();
        }
        self.approve = !yes;
    }

    /// The arguments that goose is started with.
    pub fn args(&self) -> (r: Vec<String>)
        ensures
            r.deep_view() == goose_args(self.builtins.deep_view()),
    {
        let mut r = vec!["acp".to_string()];
        if self.builtins.len() > 0 {
            r.push("--with-builtin".to_string());
            r.push(text::join(&self.builtins, ","));
        }
        assert(r.deep_view() =~= goose_args(self.builtins.deep_view()));
        r
    }

    /// The settings of goose, which hold for this process only.
    pub fn env(&self) -> (r: Vec<(String, String)>)
        ensures
            r.deep_view() == goose_env(
                self.approve,
                self.model@,
                self.proxy_base_url@,
                self.api_key@,
            ),
    {
        let mode = if self.approve {
            "approve"
        } else {
            "auto"
        };
        let r = vec![
            ("GOOSE_MODE".to_string(), mode.to_string()),
            ("GOOSE_PROVIDER".to_string(), "openai".to_string()),
            ("GOOSE_MODEL".to_string(), self.model.clone()),
            ("OPENAI_HOST".to_string(), self.proxy_base_url.clone()),
            ("OPENAI_API_KEY".to_string(), self.api_key.clone()),
        ];
        assert(r.deep_view() =~= goose_env(
            self.approve,
            self.model@,
            self.proxy_base_url@,
            self.api_key@,
        ));
        r
    }
}

/// A place where goose may be.
pub struct Candidate {
    pub path: String,
    /// It has to be a file; otherwise it is enough that it exists.
    pub file: bool,
}

pub struct CandidateModel {
    pub path: Seq<char>,
    pub file: bool,
}

impl DeepView for Candidate {
    type V = CandidateModel;

    open spec fn deep_view(&self) -> CandidateModel {
        CandidateModel { path: self.path@, file: self.file }
    }
}

/// The places where goose may be: the one that the settings name, or else the
/// user's own programs and then the search path.
pub open spec fn goose_places(
    named: Option<Seq<char>>,
    home: Option<Seq<char>>,
    search: Seq<Seq<char>>,
) -> Seq<CandidateModel> {
    match named {
        Some(p) => seq![CandidateModel { path: tilde_expanded(p, home), file: false }],
        None => {
            let own = match home {
                Some(h) => seq![
                    CandidateModel { path: path_joined(h, ".local/bin/goose"@), file: false },
                ],
                None => Seq::empty(),
            };
            own + search.map_values(
                |d: Seq<char>| CandidateModel { path: path_joined(d, "goose"@), file: true },
            )
        },
    }
}

/// The places where goose may be, in the order in which they are tried.
pub fn candidates(config: &Config, home: &Option<String>, search: &Vec<String>) -> (r: Vec<
    Candidate,
>)
    ensures
        r.deep_view() == goose_places(
            config.agent.goose_path.deep_view(),
            home.deep_view(),
            search.deep_view(),
        ),
{
    let mut r: Vec<Candidate> = Vec::new();
    if let Some(p) = &config.agent.goose_path {
        r.push(Candidate { path: expand_tilde(p.clone(), home), file: false });
        assert(r.deep_view() =~= goose_places(
            config.agent.goose_path.deep_view(),
            home.deep_view(),
            search.deep_view(),
        ));
        return r;
    }
    if let Some(h) = home {
        r.push(Candidate { path: path_join(h.as_str(), ".local/bin/goose"), file: false });
    }
    let ghost own = r.deep_view();
    let ghost all = search.deep_view();
    let ghost f = |d: Seq<char>|
        CandidateModel { path: path_joined(d, "goose"@), file: true };
    let mut i: usize = 0;
    while i < search.len()
        invariant
            i <= search.len(),
            all == search.deep_view(),
            f == (|d: Seq<char>| CandidateModel { path: path_joined(d, "goose"@), file: true }),
            r.deep_view() =~= own + all.take(i as int).map_values(f),
        decreases search.len() - i,
    {
        let ghost before = r.deep_view();
        let c = Candidate { path: path_join(search[i].as_str(), "goose"), file: true };
        r.push(c);
        proof {
            assert(all[i as int] == search[i as int]@);
            assert(all.take(i + 1) =~= all.take(i as int).push(all[i as int]));
            assert(r.deep_view() =~= before.push(f(all[i as int])));
        }
        i += 1;
    }
    proof {
        assert(all.take(i as int) =~= all);
        assert(r.deep_view() =~= goose_places(
            config.agent.goose_path.deep_view(),
            home.deep_view(),
            search.deep_view(),
        ));
    }
    r
}

/// What is said when goose is nowhere.
pub open spec fn not_found(named: Option<Seq<char>>, home: Option<Seq<char>>) -> Seq<char> {
    match named {
        Some(p) => "agent.goose_path "@ + tilde_expanded(p, home) + " does not exist"@,
        None =>
            "goose not found. Install it: curl -fsSL https://github.com/aaif-goose/goose/releases/download/stable/download_cli.sh | CONFIGURE=false bash"@,
    }
}

/// Where goose is: the first place where it was found, of those where it was
/// looked for.
pub fn locate_goose(
    config: &Config,
    home: &Option<String>,
    places: &Vec<Candidate>,
    found: &Vec<bool>,
) -> (r: Result<String, String>)
    requires
        places.len() == found.len(),
    ensures
        match r {
            Ok(path) => exists|i: int|
                0 <= i < places.len() && #[trigger] found@[i] && path@ == places@[i].path@
                    && forall|k: int| 0 <= k < i ==> !(#[trigger] found@[k]),
            Err(e) => (forall|k: int| 0 <= k < found.len() ==> !(#[trigger] found@[k])) && e@
                == not_found(config.agent.goose_path.deep_view(), home.deep_view()),
        },
{
    let mut i: usize = 0;
    while i < places.len()
        invariant
            i <= places.len(),
            places.len() == found.len(),
            forall|k: int| 0 <= k < i ==> !(#[trigger] found@[k]),
        decreases places.len() - i,
    {
        if found[i] {
            assert(found@[i as int]);
            return Ok(places[i].path.clone());
        }
        i += 1;
    }
    match &config.agent.goose_path {
        Some(p) => {
            let shown = expand_tilde(p.clone(), home);
            Err(text::cat3("agent.goose_path ", shown.as_str(), " does not exist"))
        },
        None => Err(
            "goose not found. Install it: curl -fsSL https://github.com/aaif-goose/goose/releases/download/stable/download_cli.sh | CONFIGURE=false bash".to_string(),
        ),
    }
}

} // verus!
