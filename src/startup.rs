//! Resolving command-line and environment input into a startup configuration.
use crate::api_types::{all_languages_spec, canonical_text, SupportedLanguages};
use crate::language_selection::{
    opt_view, parse_languages, selection_spec, texts_of, LanguageSelection, SelectionModel,
};
use vstd::prelude::*;

verus! {

broadcast use vstd::string::group_string_axioms;

/// The port the server binds to when none is given.
pub const DEFAULT_PORT: u16 = 4444;

/// The address the server binds to when none is given.
pub open spec fn default_host_text() -> Seq<char> {
    seq!['0', '.', '0', '.', '0', '.', '0']
}

/// The file that the specification is written to in export mode.
pub open spec fn spec_output_path_text() -> Seq<char> {
    seq!['o', 'p', 'e', 'n', 'a', 'p', 'i', '.', 'j', 's', 'o', 'n']
}

/// The address the server binds to when none is given.
pub fn default_host() -> (r: String)
    ensures
        r@ == default_host_text(),
{
    proof {
        reveal_strlit("0.0.0.0");
    }
    let r = "0.0.0.0".to_string();
    assert(r@ =~= default_host_text());
    r
}

/// The file that the specification is written to in export mode.
pub fn spec_output_path() -> (r: String)
    ensures
        r@ == spec_output_path_text(),
{
    proof {
        reveal_strlit("openapi.json");
    }
    let r = "openapi.json".to_string();
    assert(r@ =~= spec_output_path_text());
    r
}

/// The command-line arguments, as given: an absent option is `None`.
#[derive(Debug)]
pub struct CliArgs {
    /// Write the API specification instead of starting the server.
    pub write_openapi: bool,
    /// Address to bind the server to.
    pub host: Option<String>,
    /// Override of the directory where the workspace files are.
    pub mount_dir: Option<String>,
    /// Port to bind the server to.
    pub port: Option<u16>,
    /// Comma-separated list of languages to start.
    pub languages: Option<String>,
}

/// What the server is started with.
#[derive(Debug)]
pub struct ServerConfig {
    pub host: String,
    pub port: u16,
    pub mount_dir: Option<String>,
    /// The languages to start; `None` leaves them to detection.
    pub languages: Option<Vec<SupportedLanguages>>,
}

/// The resolved configuration of one run.
#[derive(Debug)]
pub enum StartupConfig {
    /// Write the API specification to `spec_output_path()` and stop.
    ExportSpec,
    /// Start the server.
    RunServer(ServerConfig),
}

/// A language list with tokens that name no language.
#[derive(Debug)]
pub struct InvalidLanguageList {
    /// The offending tokens, trimmed, in the order given.
    pub tokens: Vec<String>,
    /// The canonical texts of all languages, in the documented order.
    pub valid_forms: Vec<&'static str>,
}

/// The texts of `items` with `sep` between each two.
pub open spec fn joined(items: Seq<Seq<char>>, sep: Seq<char>) -> Seq<char>
    decreases items.len(),
{
    if items.len() == 0 {
        Seq::empty()
    } else if items.len() == 1 {
        items[0]
    } else {
        joined(items.drop_last(), sep) + sep + items.last()
    }
}

/// The opening of the message of an invalid language list.
pub open spec fn invalid_prefix_text() -> Seq<char> {
    seq!['I', 'n', 'v', 'a', 'l', 'i', 'd', ' ', 'l', 'a', 'n', 'g', 'u', 'a', 'g', 'e', '(', 's', ')', ':', ' ']
}

pub open spec fn list_separator_text() -> Seq<char> {
    seq![',', ' ']
}

impl InvalidLanguageList {
    /// `Invalid language(s): ` followed by the offending tokens, separated by `, `.
    pub fn message(&self) -> (r: String)
        ensures
            r@ == invalid_prefix_text() + joined(texts_of(self.tokens@), list_separator_text()),
    {
        proof {
            reveal_strlit("Invalid language(s): ");
        }
        let mut r = "Invalid language(s): ".to_string();
        assert(r@ =~= invalid_prefix_text());
        let ghost toks = texts_of(self.tokens@);
        for i in 0..self.tokens.len()
            invariant
                toks == texts_of(self.tokens@),
                r@ == invalid_prefix_text() + joined(toks.take(i as int), list_separator_text()),
        {
            let ghost before = r@;
            let ghost mid = before;
            if i > 0 {
                proof {
                    reveal_strlit(", ");
                }
                assert(", "@ =~= list_separator_text());
                r.append(", ");
                proof {
                    mid = before + list_separator_text();
                }
            }
            assert(r@ == mid);
            r.append(self.tokens[i].as_str());
            assert(r@ == mid + self.tokens@[i as int]@);
            proof {
                let t = toks.take(i + 1);
                assert(t.drop_last() =~= toks.take(i as int));
                assert(t.last() == self.tokens@[i as int]@);
                let prev = joined(toks.take(i as int), list_separator_text());
                if i == 0 {
                    assert(joined(t, list_separator_text()) == t[0]);
                    assert(prev =~= Seq::<char>::empty());
                } else {
                    assert(joined(t, list_separator_text()) == prev + list_separator_text()
                        + t.last());
                }
                assert(r@ =~= invalid_prefix_text() + joined(t, list_separator_text()));
            }
        }
        assert(toks.take(self.tokens.len() as int) =~= toks);
        r
    }
}

/// The mathematical value of a `ServerConfig`.
pub struct ServerModel {
    pub host: Seq<char>,
    pub port: u16,
    pub mount_dir: Option<Seq<char>>,
    pub languages: Option<Seq<SupportedLanguages>>,
}

/// The mathematical value of a `StartupConfig`.
pub enum ConfigModel {
    ExportSpec,
    RunServer(ServerModel),
}

pub open spec fn langs_view(o: Option<Vec<SupportedLanguages>>) -> Option<Seq<SupportedLanguages>> {
    match o {
        Some(v) => Some(v@),
        None => None,
    }
}

impl View for ServerConfig {
    type V = ServerModel;

    open spec fn view(&self) -> ServerModel {
        ServerModel {
            host: self.host@,
            port: self.port,
            mount_dir: opt_view(self.mount_dir),
            languages: langs_view(self.languages),
        }
    }
}

impl View for StartupConfig {
    type V = ConfigModel;

    open spec fn view(&self) -> ConfigModel {
        match self {
            StartupConfig::ExportSpec => ConfigModel::ExportSpec,
            StartupConfig::RunServer(c) => ConfigModel::RunServer(c@),
        }
    }
}

/// Whether `v` lists the canonical texts of all languages, in order.
pub open spec fn lists_valid_forms(v: Seq<&'static str>) -> bool {
    &&& v.len() == all_languages_spec().len()
    &&& forall|i: int| 0 <= i < v.len() ==> #[trigger] v[i]@ == canonical_text(all_languages_spec()[i])
}

/// The raw language list: the command-line value when there is one, else the
/// environment value.
pub open spec fn language_source_spec(cli: Option<Seq<char>>, env: Option<Seq<char>>) -> Option<
    Seq<char>,
> {
    match cli {
        Some(s) => Some(s),
        None => env,
    }
}

/// The configuration that the arguments give, or the offending tokens.
pub open spec fn config_spec(
    write_openapi: bool,
    host: Option<Seq<char>>,
    mount_dir: Option<Seq<char>>,
    port: Option<u16>,
    cli_languages: Option<Seq<char>>,
    env_languages: Option<Seq<char>>,
) -> Result<ConfigModel, Seq<Seq<char>>> {
    if write_openapi {
        Ok(ConfigModel::ExportSpec)
    } else {
        match selection_spec(language_source_spec(cli_languages, env_languages)) {
            SelectionModel::Invalid(bad) => Err(bad),
            sel => Ok(
                ConfigModel::RunServer(
                    ServerModel {
                        host: match host {
                            Some(h) => h,
                            None => default_host_text(),
                        },
                        port: match port {
                            Some(p) => p,
                            None => DEFAULT_PORT,
                        },
                        mount_dir,
                        languages: match sel {
                            SelectionModel::Explicit(l) => Some(l),
                            _ => None,
                        },
                    },
                ),
            ),
        }
    }
}

/// `config_spec` on the command-line arguments.
pub open spec fn cli_config_spec(cli: CliArgs, env_languages: Option<Seq<char>>) -> Result<
    ConfigModel,
    Seq<Seq<char>>,
> {
    config_spec(
        cli.write_openapi,
        opt_view(cli.host),
        opt_view(cli.mount_dir),
        cli.port,
        opt_view(cli.languages),
        env_languages,
    )
}

/// The raw language list: the command-line value when there is one, else the
/// environment value.
pub fn language_source(cli: Option<String>, env: Option<String>) -> (r: Option<String>)
    ensures
        opt_view(r) == language_source_spec(opt_view(cli), opt_view(env)),
        cli is Some ==> r == cli,
{
    match cli {
        Some(s) => Some(s),
        None => env,
    }
}

/// Resolves the configuration of one run from the command-line arguments and
/// the value of the `LANGUAGES` environment variable.
pub fn resolve_config(cli: CliArgs, env_languages: Option<String>) -> (r: Result<
    StartupConfig,
    InvalidLanguageList,
>)
    ensures
        match r {
            Ok(c) => cli_config_spec(cli, opt_view(env_languages)) == Ok::<
                ConfigModel,
                Seq<Seq<char>>,
            >(c@),
            Err(e) => cli_config_spec(cli, opt_view(env_languages)) == Err::<
                ConfigModel,
                Seq<Seq<char>>,
            >(texts_of(e.tokens@)) && lists_valid_forms(e.valid_forms@),
        },
{
    if cli.write_openapi {
        return Ok(StartupConfig::ExportSpec);
    }
    let raw = language_source(cli.languages, env_languages);
    let languages = match parse_languages(raw) {
        LanguageSelection::Invalid(tokens) => {
            return Err(
                InvalidLanguageList { tokens, valid_forms: SupportedLanguages::valid_forms() },
            );
        },
        LanguageSelection::Unspecified => None,
        LanguageSelection::Explicit(v) => Some(v),
    };
    let host = match cli.host {
        Some(h) => h,
        None => default_host(),
    };
    let port = match cli.port {
        Some(p) => p,
        None => DEFAULT_PORT,
    };
    let c = ServerConfig { host, port, mount_dir: cli.mount_dir, languages };
    Ok(StartupConfig::RunServer(c))
}

/// A language list given on the command line decides the outcome whatever
/// the environment holds.
pub proof fn lemma_cli_languages_take_precedence(
    cli: CliArgs,
    env_a: Option<Seq<char>>,
    env_b: Option<Seq<char>>,
)
    requires
        cli.languages is Some,
    ensures
        cli_config_spec(cli, env_a) == cli_config_spec(cli, env_b),
{
}

} // verus!
