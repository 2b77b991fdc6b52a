//! What holds of the settings, of paths and of the key.

use crate::agent::goose::{goose_args, goose_env, goose_places, not_found, CandidateModel};
use crate::breadcrumb::{mark, trimmed_trail};
use crate::config::{
    config_dir, config_file, data_dir, default_key_file, exposes, resolved_key, state_dir, Config,
};
use crate::paths::{path_joined, path_trimmed_end, path_trimmed_start, tilde_expanded, under_base};
use crate::proxy::{
    loopback_url, pcr0_named, settings, wait_healthy, HEALTH_TRIES, Health, Pcr0Environment,
    ProxyHandle, ProxySettings,
};
use crate::text::{blank, decimal, joined, lines_of};
use crate::text_laws::{decimal_digits_read_back, numeral, tight, trimming_takes_white_space_off};
use vstd::prelude::*;

verus! {

/// Whether the text holds this key, with white space around it.
pub open spec fn holds_key(text: Option<Seq<char>>, key: Seq<char>) -> bool {
    text matches Some(t) && key.len() > 0 && tight(key) && exists|
        before: Seq<char>,
        after: Seq<char>,
    |
        blank(before) && blank(after) && t == #[trigger] (before + key + after)
}

/// Whether there is no key in the text: it is missing, or all white space.
pub open spec fn holds_none(text: Option<Seq<char>>) -> bool {
    text matches Some(t) ==> blank(t)
}

proof fn lemma_key(text: Option<Seq<char>>, key: Seq<char>)
    ensures
        holds_key(text, key) ==> crate::config::usable_key(text) == Some(key),
        holds_none(text) ==> crate::config::usable_key(text) is None,
{
    if holds_key(text, key) {
        let t = text->0;
        let (before, after) = choose|before: Seq<char>, after: Seq<char>|
            blank(before) && blank(after) && t == #[trigger] (before + key + after);
        trimming_takes_white_space_off(before, key, after);
    }
    if let Some(t) = text {
        crate::cli::run_laws::lemma_blank_line(t);
    }
}

/// The key in the environment counts before that in the file, and that before the one
/// in the settings; white space around a key is not part of it, and a place that holds
/// nothing else is passed over.
pub proof fn keys_are_looked_for_in_order(
    env: Option<Seq<char>>,
    file: Option<Seq<char>>,
    inline: Option<Seq<char>>,
    key: Seq<char>,
)
    ensures
        holds_key(env, key) ==> resolved_key(env, file, inline) == Some(key),
        holds_none(env) && holds_key(file, key) ==> resolved_key(env, file, inline) == Some(key),
        holds_none(env) && holds_none(file) && holds_key(inline, key) ==> resolved_key(
            env,
            file,
            inline,
        ) == Some(key),
        holds_none(env) && holds_none(file) && holds_none(inline) ==> resolved_key(
            env,
            file,
            inline,
        ) is None,
{
    lemma_key(env, key);
    lemma_key(file, key);
    lemma_key(inline, key);
}

/// A file is exposed if any of the six lowest bits of its permissions is set, whatever
/// its owner may do.
pub proof fn only_the_owner_should_read_the_key(mode: u32)
    ensures
        exposes(mode) <==> mode % 64 != 0,
        exposes(mode) == exposes(mode | 0o700),
{
    assert((mode & 0o077 != 0) == (mode % 64 != 0)) by (bit_vector);
    assert((mode & 0o077 != 0) == ((mode | 0o700) & 0o077 != 0)) by (bit_vector);
}

/// Whether the path goes on from the place it is under: it does not begin with a slash.
pub open spec fn is_relative(path: Seq<char>) -> bool {
    path.len() > 0 ==> path[0] != '/'
}

/// A path is put under another with one slash between them; an absolute path stands for
/// itself.
pub proof fn paths_are_joined_by_one_slash(base: Seq<char>, rest: Seq<char>)
    ensures
        is_relative(rest) && base.len() > 0 && base.last() != '/' ==> path_joined(base, rest) == base
            + seq!['/'] + rest,
        is_relative(rest) && base.len() > 0 && base.last() == '/' ==> path_joined(base, rest) == base
            + rest,
        is_relative(rest) && base.len() == 0 ==> path_joined(base, rest) == rest,
        !is_relative(rest) ==> path_joined(base, rest) == rest,
        under_base(Some(base), rest) == path_joined(base, rest),
        under_base(None, rest) == path_joined(seq!['.'], rest),
{
    reveal_strlit("/");
    reveal_strlit(".");
    assert("/"@ =~= seq!['/']);
    assert("."@ =~= seq!['.']);
    assert(Seq::<char>::empty() + rest =~= rest);
    if base.len() == 0 {
        assert(base + rest =~= rest);
    }
}

/// Whether the path neither begins nor ends with a slash or a component that is a dot.
pub open spec fn is_plain(path: Seq<char>) -> bool {
    &&& path.len() > 0
    &&& path[0] != '/' && path.last() != '/'
    &&& !(path[0] == '.' && (path.len() == 1 || path[1] == '/'))
    &&& !(path.last() == '.' && path[path.len() - 2] == '/')
}

/// A tilde in front of a path stands for the home directory; a path without one stays as
/// it is, and so does every path where there is no home directory.
pub proof fn a_tilde_is_the_home_directory(path: Seq<char>, home: Seq<char>, other: Seq<char>)
    requires
        is_plain(path),
        !(other.len() > 0 && other[0] == '~' && (other.len() == 1 || other[1] == '/')),
        home.len() > 0,
        home.last() != '/',
    ensures
        tilde_expanded(seq!['~', '/'] + path, Some(home)) == home + seq!['/'] + path,
        tilde_expanded(seq!['~', '/'] + path, None) == seq!['~', '/'] + path,
        tilde_expanded(other, Some(home)) == other,
        tilde_expanded(other, None) == other,
{
    let whole = seq!['~', '/'] + path;
    assert(whole[0] == '~' && whole[1] == '/');
    let rest = whole.drop_first();
    assert(rest[0] == '/');
    assert(rest.drop_first() =~= path);
    assert(path_trimmed_start(path) == path);
    assert(path_trimmed_start(rest) == path);
    assert(path_trimmed_end(path) == path) by {
        if path.len() == 1 {
            assert(path.last() == path[0]);
        }
    }
    paths_are_joined_by_one_slash(home, path);
}

/// The settings name two sets of measurements that the enclave can be held to.
pub proof fn measurements_have_names(name: Seq<char>)
    ensures
        pcr0_named(name) == Some(Pcr0Environment::Production) <==> name == "production"@,
        pcr0_named(name) == Some(Pcr0Environment::Development) <==> name == "development"@,
        pcr0_named(name) is None <==> name != "production"@ && name != "development"@,
{
    reveal_strlit("production");
    reveal_strlit("development");
    assert("production"@.len() == 10 && "development"@.len() == 11);
}

/// The proxy is reached on this machine and nowhere else, on its port.
pub proof fn the_proxy_is_on_this_machine(port: u16)
    ensures
        loopback_url(port).len() > 17,
        loopback_url(port).take(17) == "http://127.0.0.1:"@,
        numeral(loopback_url(port).skip(17)) == port,
{
    reveal_strlit("http://127.0.0.1:");
    decimal_digits_read_back(port as nat);
    assert(loopback_url(port).take(17) =~= "http://127.0.0.1:"@);
    assert(loopback_url(port).skip(17) =~= decimal(port as nat));
}

/// The value that a setting of the environment has, by its first entry.
pub open spec fn set_to(env: Seq<(Seq<char>, Seq<char>)>, name: Seq<char>, value: Seq<char>) -> bool {
    exists|i: int| 0 <= i < env.len() && #[trigger] env[i] == (name, value)
}

/// Goose is told to ask before it uses a tool, unless leave was given; its model, and
/// where it finds it, are those of this program, and its key is the user's.
pub proof fn goose_is_set_up(
    approve: bool,
    model: Seq<char>,
    proxy: Seq<char>,
    key: Seq<char>,
)
    ensures
        ({
            let env = goose_env(approve, model, proxy, key);
            &&& env.len() == 5
            &&& approve ==> set_to(env, "GOOSE_MODE"@, "approve"@)
            &&& !approve ==> set_to(env, "GOOSE_MODE"@, "auto"@)
            &&& set_to(env, "GOOSE_PROVIDER"@, "openai"@)
            &&& set_to(env, "GOOSE_MODEL"@, model)
            &&& set_to(env, "OPENAI_HOST"@, proxy)
            &&& set_to(env, "OPENAI_API_KEY"@, key)
        }),
{
    let env = goose_env(approve, model, proxy, key);
    assert(env[0].0 == "GOOSE_MODE"@);
    assert(env[0] == ("GOOSE_MODE"@, if approve { "approve"@ } else { "auto"@ }));
    assert(env[1] == ("GOOSE_PROVIDER"@, "openai"@));
    assert(env[2] == ("GOOSE_MODEL"@, model));
    assert(env[3] == ("OPENAI_HOST"@, proxy));
    assert(env[4] == ("OPENAI_API_KEY"@, key));
}

/// Goose speaks the protocol, with its builtin extensions in one argument, separated by
/// commas, if there are any.
pub proof fn goose_speaks_the_protocol(builtins: Seq<Seq<char>>)
    ensures
        goose_args(builtins)[0] == "acp"@,
        builtins.len() == 0 ==> goose_args(builtins).len() == 1,
        builtins.len() > 0 ==> goose_args(builtins).len() == 3 && goose_args(builtins)[1]
            == "--with-builtin"@ && goose_args(builtins)[2] == joined(builtins, seq![',']),
{
    reveal_strlit(",");
    assert(","@ =~= seq![',']);
}

/// Goose is where the settings say; otherwise among the user's own programs, or in a
/// directory of the search path, in its order.
pub proof fn goose_is_looked_for(
    named: Seq<char>,
    home: Seq<char>,
    search: Seq<Seq<char>>,
)
    ensures
        goose_places(Some(named), Some(home), search) == seq![
            CandidateModel { path: tilde_expanded(named, Some(home)), file: false },
        ],
        ({
            let places = goose_places(None, Some(home), search);
            &&& places.len() == search.len() + 1
            &&& places[0] == (CandidateModel {
                path: path_joined(home, ".local/bin/goose"@),
                file: false,
            })
            &&& forall|i: int|
                0 <= i < search.len() ==> #[trigger] places[i + 1] == (CandidateModel {
                    path: path_joined(search[i], "goose"@),
                    file: true,
                })
        }),
        ({
            let places = goose_places(None, None, search);
            &&& places.len() == search.len()
            &&& forall|i: int|
                0 <= i < search.len() ==> #[trigger] places[i] == (CandidateModel {
                    path: path_joined(search[i], "goose"@),
                    file: true,
                })
        }),
        not_found(Some(named), Some(home)) == "agent.goose_path "@ + tilde_expanded(
            named,
            Some(home),
        ) + " does not exist"@,
{
}

/// A startup trail of up to five hundred lines is left alone; of a longer one the last two
/// hundred are kept.
pub proof fn long_trails_keep_two_hundred_lines(trail: Seq<char>)
    ensures
        lines_of(trail).len() <= 500 <==> trimmed_trail(trail) is None,
        trimmed_trail(trail) matches Some(kept) ==> lines_of(kept).len() == 200,
{
    crate::breadcrumb::the_trail_stays_short(trail);
}

/// The settings, the key and the logs have their places: the settings and the key in the
/// user's settings, under the program's name.
pub proof fn files_have_their_places(
    base: &Option<String>,
    dir: String,
    data: String,
    state: String,
    name: &str,
    file: String,
    key: String,
)
    requires
        call_ensures(config_dir, (base,), dir),
        call_ensures(data_dir, (base,), data),
        call_ensures(state_dir, (base,), state),
        call_ensures(config_file, (name,), file),
        call_ensures(default_key_file, (name,), key),
    ensures
        dir@ == under_base(base.deep_view(), "maple-tui"@),
        data@ == dir@,
        state@ == dir@,
        file@ == path_joined(name@, "config.toml"@),
        key@ == path_joined(name@, "api_key"@),
{
}

/// The key is read from the file that the settings name, or else from the usual one; and
/// where no key is found, it is said where one is looked for.
pub proof fn keys_have_their_file(
    config: &Config,
    dir: &str,
    home: &Option<String>,
    file: String,
    env: &Option<String>,
    text: &Option<String>,
    key_file: &str,
    key: Seq<char>,
    found: Result<String, String>,
)
    requires
        call_ensures(Config::key_file, (config, dir, home), file),
        call_ensures(Config::resolve_api_key, (config, env, text, key_file), found),
    ensures
        config.auth.key_file is Some ==> file@ == tilde_expanded(
            config.auth.key_file->0@,
            home.deep_view(),
        ),
        config.auth.key_file is None ==> file@ == path_joined(dir@, "api_key"@),
        holds_key(env.deep_view(), key) ==> found is Ok && found->Ok_0@ == key,
        holds_none(env.deep_view()) && holds_key(text.deep_view(), key) ==> found is Ok
            && found->Ok_0@ == key,
        holds_none(env.deep_view()) && holds_none(text.deep_view()) && holds_none(
            config.auth.api_key.deep_view(),
        ) ==> found is Err && found->Err_0@
            == "no Maple API key found. Set $MAPLE_API_KEY, or write your key to "@ + key_file@
            + " (chmod 600). Keys are created at https://trymaple.ai (Pro/Team/Max plans)."@,
{
    keys_are_looked_for_in_order(
        env.deep_view(),
        text.deep_view(),
        config.auth.api_key.deep_view(),
        key,
    );
}

/// The proxy is waited for as often as was said, and then given up.
pub proof fn the_proxy_is_waited_for(
    handle: &ProxyHandle,
    left: u32,
    up: Health,
    down: Health,
)
    requires
        call_ensures(wait_healthy, (handle, left, true), up),
        call_ensures(wait_healthy, (handle, left, false), down),
    ensures
        up is Ready,
        left > 1 ==> down == Health::Again((left - 1) as u32),
        left <= 1 ==> down is Failed,
        HEALTH_TRIES == 50,
{
}

/// The proxy is set up as the settings say, towards the enclave unless they name another
/// place; measurements that are not known stop it.
pub proof fn the_proxy_is_set_up(config: &Config, made: Result<ProxySettings, String>)
    requires
        call_ensures(settings, (config,), made),
    ensures
        ({
            let name = config.proxy.pcr0_environment@;
            &&& made is Ok <==> name == "production"@ || name == "development"@
            &&& made is Ok ==> {
                &&& made->Ok_0.port == config.proxy.port
                &&& name == "production"@ ==> made->Ok_0.pcr0 == Pcr0Environment::Production
                &&& name == "development"@ ==> made->Ok_0.pcr0 == Pcr0Environment::Development
                &&& config.proxy.backend_url is Some ==> made->Ok_0.backend_url@
                    == config.proxy.backend_url->0@
                &&& config.proxy.backend_url is None ==> made->Ok_0.backend_url@
                    == "https://enclave.trymaple.ai"@
            }
        }),
{
    measurements_have_names(config.proxy.pcr0_environment@);
}

/// A stage of the start is recorded in a line with the time and the process.
pub proof fn stages_are_recorded(seconds: u64, pid: u32, stage: &str, recorded: String)
    requires
        call_ensures(mark, (seconds, pid, stage), recorded),
    ensures
        recorded@ == decimal(seconds as nat) + " pid="@ + decimal(pid as nat) + " "@ + stage@
            + "\n"@,
{
}

} // verus!
