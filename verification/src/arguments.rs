//! Rule evaluation and the command line that launches the game.
use crate::manifest::version::{
    ArgModel, ClientLoggingFile, CustomArguments, Either, FeatureFlag, Library, LibraryModel, Main, MainModel, Os,
    Rule, RuleAction, RuleModel, StringPair, lookup_string, os_name,
};
use crate::text::{
    assoc, contains_spec, lemma_replace_absent, lemma_split_then, lemma_split_whole, occurs_at,
    piece_or_empty, replace_spec, replace_str, split_spec, split_str, starts_with_spec,
    starts_with_str, str_eq, to_owned_string, views,
};
use vstd::prelude::*;

verus! {

/// What the launcher knows of the machine it runs on: the operating system
/// and architecture names of the Rust standard library, and the version of
/// the operating system when it is a semantic version.
pub struct Environment {
    pub os: String,
    pub arch: String,
    pub os_version: Option<(u64, u64, u64)>,
}

/// The operating system of the environment in the manifests' terms.
pub open spec fn os_of(os: Seq<char>) -> Os {
    if os == "windows"@ {
        Os::Windows
    } else if os == "macos"@ {
        Os::MacOS
    } else {
        Os::Linux
    }
}

pub fn get_os(env: &Environment) -> (r: Os)
    ensures
        r == os_of(env.os@),
{
    if str_eq(env.os.as_str(), "windows") {
        Os::Windows
    } else if str_eq(env.os.as_str(), "macos") {
        Os::MacOS
    } else {
        Os::Linux
    }
}

/// The semantic version that `os_info` reads in a version text, if it reads
/// one.
pub uninterp spec fn semantic_version_of(s: Seq<char>) -> Option<(u64, u64, u64)>;

/// Calls `os_info::Version::from_string` and keeps the semantic version it
/// yields. Claimed: the result is the named function of the text, and an
/// empty text yields no version (the crate documents that it is `Unknown`).
#[verifier::external_body]
fn parse_os_version(s: String) -> (r: Option<(u64, u64, u64)>)
    ensures
        r == semantic_version_of(s@),
        s@.len() == 0 ==> r is None,
{
    match os_info::Version::from_string(s) {
        os_info::Version::Semantic(major, minor, patch) => Some((major, minor, patch)),
        os_info::Version::Unknown => None,
        os_info::Version::Rolling(_) => None,
        os_info::Version::Custom(_) => None,
    }
}

/// The rule's opposite action.
pub open spec fn flip(a: RuleAction) -> RuleAction {
    match a {
        RuleAction::Allow => RuleAction::Disallow,
        RuleAction::Disallow => RuleAction::Allow,
    }
}

/// A feature switch named in a rule holds: the launch options are known and
/// the feature is one the launcher supports and has turned on. The value
/// written beside the name in the manifest is not consulted.
pub open spec fn feature_holds(name: Seq<char>, flags: Option<(bool, bool)>) -> bool {
    match flags {
        None => false,
        Some((demo, custom_resolution)) => if name == "is_demo_user"@ {
            demo
        } else if name == "has_custom_resolution"@ {
            custom_resolution
        } else {
            false
        },
    }
}

pub open spec fn features_hold(features: Seq<(Seq<char>, bool)>, flags: Option<(bool, bool)>) -> bool {
    forall|i: int| 0 <= i < features.len() ==> feature_holds(#[trigger] features[i].0, flags)
}

/// The version text of a rule, cleared of regex escapes: backslashes removed,
/// `d$` read as `0`.
pub open spec fn cleaned_version_pattern(value: Seq<char>) -> Seq<char> {
    replace_spec(replace_spec(value, "\\"@, ""@), "d$"@, "0"@)
}

/// The version text of a rule, cleaned (see `cleaned_version_pattern`),
/// without its `^` marks, and whether it started with `^`.
pub open spec fn version_pattern_model(value: Seq<char>) -> (Seq<char>, bool) {
    let v = cleaned_version_pattern(value);
    if starts_with_spec(v, "^"@) {
        (replace_spec(v, "^"@, ""@), true)
    } else {
        (v, false)
    }
}

/// The version of a rule admits the version of the operating system: it is
/// equal, or, for an `at_least` pattern, the rule's version compared
/// component by component with the system's gives a rule version not below
/// it.
pub open spec fn version_admits(
    rule: Option<(u64, u64, u64)>,
    at_least: bool,
    os: (u64, u64, u64),
) -> bool {
    match rule {
        None => false,
        Some((major, minor, patch)) => {
            let (maj, min, pat) = os;
            if at_least {
                major > maj || (major == maj && (minor > min || (minor == min && patch >= pat)))
            } else {
                maj == major && min == minor && pat == patch
            }
        },
    }
}

/// A version condition of a rule holds: the operating system has a semantic
/// version and the version read in the rule's pattern admits it.
pub open spec fn version_holds(value: Seq<char>, os_version: Option<(u64, u64, u64)>) -> bool {
    match os_version {
        None => false,
        Some(os) => {
            let (v2, at_least) = version_pattern_model(value);
            version_admits(semantic_version_of(v2), at_least, os)
        },
    }
}

/// One condition of an `os` rule holds on the environment.
pub open spec fn os_condition_holds(
    key: Seq<char>,
    value: Seq<char>,
    os: Seq<char>,
    arch: Seq<char>,
    os_version: Option<(u64, u64, u64)>,
) -> bool {
    if key == "name"@ {
        value == os_name(os_of(os))
    } else if key == "version"@ {
        version_holds(value, os_version)
    } else if key == "arch"@ {
        value == arch
    } else {
        false
    }
}

pub open spec fn os_conditions_hold(
    conds: Seq<(Seq<char>, Seq<char>)>,
    os: Seq<char>,
    arch: Seq<char>,
    os_version: Option<(u64, u64, u64)>,
) -> bool {
    forall|i: int|
        0 <= i < conds.len() ==> os_condition_holds(
            #[trigger] conds[i].0,
            conds[i].1,
            os,
            arch,
            os_version,
        )
}

/// What one rule says: its action when its conditions hold, the opposite
/// action when they do not, its action when it has no condition.
pub open spec fn rule_outcome(
    rule: RuleModel,
    flags: Option<(bool, bool)>,
    os: Seq<char>,
    arch: Seq<char>,
    os_version: Option<(u64, u64, u64)>,
) -> RuleAction {
    match rule.features {
        Some(f) => if features_hold(f, flags) {
            rule.action
        } else {
            flip(rule.action)
        },
        None => match rule.os {
            Some(o) => if os_conditions_hold(o, os, arch, os_version) {
                rule.action
            } else {
                flip(rule.action)
            },
            None => rule.action,
        },
    }
}

/// The verdict of a list of rules: that of the last rule, `Allow` when there
/// is none.
pub open spec fn rules_verdict(
    rules: Seq<RuleModel>,
    flags: Option<(bool, bool)>,
    os: Seq<char>,
    arch: Seq<char>,
    os_version: Option<(u64, u64, u64)>,
) -> RuleAction {
    if rules.len() == 0 {
        RuleAction::Allow
    } else {
        rule_outcome(rules.last(), flags, os, arch, os_version)
    }
}

/// A later rule overrides the earlier ones: the verdict of a list of rules
/// is the verdict of its last rule alone, and no rules allow.
pub proof fn lemma_last_rule_decides(
    rules: Seq<RuleModel>,
    rule: RuleModel,
    flags: Option<(bool, bool)>,
    os: Seq<char>,
    arch: Seq<char>,
    os_version: Option<(u64, u64, u64)>,
)
    ensures
        rules_verdict(rules.push(rule), flags, os, arch, os_version) == rules_verdict(
            seq![rule],
            flags,
            os,
            arch,
            os_version,
        ),
        rules_verdict(seq![], flags, os, arch, os_version) == RuleAction::Allow,
{
}

/// The launch switches that rules may test.
/// An architecture condition holds exactly on that architecture: a rule
/// allowing only the architecture `a` allows here when `a` is the
/// architecture's name and forbids otherwise, a rule forbidding it the
/// reverse.
pub proof fn lemma_arch_rule_matches_exactly(
    a: Seq<char>,
    action: RuleAction,
    flags: Option<(bool, bool)>,
    os: Seq<char>,
    arch: Seq<char>,
    os_version: Option<(u64, u64, u64)>,
)
    ensures
        os_condition_holds("arch"@, a, os, arch, os_version) <==> a == arch,
        rules_verdict(
            seq![RuleModel { action, features: None, os: Some(seq![("arch"@, a)]) }],
            flags,
            os,
            arch,
            os_version,
        ) == (if a == arch {
            action
        } else {
            flip(action)
        }),
        a != arch ==> rules_verdict(
            seq![RuleModel { action: RuleAction::Allow, features: None, os: Some(seq![("arch"@, a)]) }],
            flags,
            os,
            arch,
            os_version,
        ) == RuleAction::Disallow,
{
    reveal_strlit("arch");
    reveal_strlit("name");
    reveal_strlit("version");
    assert("arch"@[0] != "name"@[0]);
    assert("arch"@.len() != "version"@.len());
    let conds = seq![("arch"@, a)];
    assert(conds[0].0 == "arch"@ && conds[0].1 == a);
    assert(os_conditions_hold(conds, os, arch, os_version) <==> os_condition_holds(
        "arch"@,
        a,
        os,
        arch,
        os_version,
    ));
}

pub open spec fn flags_of(options: Option<&LaunchOptions>) -> Option<(bool, bool)> {
    match options {
        None => None,
        Some(o) => Some((o.demo, o.custom_resolution)),
    }
}

fn feature_holds_exec(name: &String, options: Option<&LaunchOptions>) -> (r: bool)
    ensures
        r == feature_holds(name@, flags_of(options)),
{
    if str_eq(name.as_str(), "is_demo_user") {
        match options {
            None => false,
            Some(opt) => opt.demo,
        }
    } else if str_eq(name.as_str(), "has_custom_resolution") {
        match options {
            None => false,
            Some(opt) => opt.custom_resolution,
        }
    } else {
        proof {
            if flags_of(options) is Some {
            }
        }
        false
    }
}

/// The version pattern of a rule (see `version_pattern_model`).
pub fn version_pattern(value: &str) -> (r: (String, bool))
    ensures
        (r.0@, r.1) == version_pattern_model(value@),
{
    proof {
        reveal_strlit("\\");
        reveal_strlit("d$");
        reveal_strlit("^");
    }
    let v0 = replace_str(value, "\\", "");
    let v1 = replace_str(v0.as_str(), "d$", "0");
    let at_least = starts_with_str(v1.as_str(), "^");
    if at_least {
        (replace_str(v1.as_str(), "^", ""), true)
    } else {
        (v1, false)
    }
}

/// Whether the version read in a rule admits the system's (see
/// `version_admits`).
pub fn compare_versions(rule: Option<(u64, u64, u64)>, at_least: bool, os: (u64, u64, u64)) -> (r: bool)
    ensures
        r == version_admits(rule, at_least, os),
{
    match rule {
        None => false,
        Some((major, minor, patch)) => {
            let (maj, min, pat) = os;
            if at_least {
                major > maj || (major == maj && (minor > min || (minor == min && patch >= pat)))
            } else {
                maj == major && min == minor && pat == patch
            }
        },
    }
}

fn version_holds_exec(value: &String, env: &Environment) -> (r: bool)
    ensures
        r == version_holds(value@, env.os_version),
{
    match env.os_version {
        None => false,
        Some(os) => {
            let (v2, at_least) = version_pattern(value.as_str());
            compare_versions(parse_os_version(v2), at_least, os)
        },
    }
}

fn os_condition_holds_exec(cond: &StringPair, env: &Environment) -> (r: bool)
    ensures
        r == os_condition_holds(cond.key@, cond.value@, env.os@, env.arch@, env.os_version),
{
    if str_eq(cond.key.as_str(), "name") {
        let os = get_os(env).to_str();
        str_eq(cond.value.as_str(), os.as_str())
    } else if str_eq(cond.key.as_str(), "version") {
        version_holds_exec(&cond.value, env)
    } else if str_eq(cond.key.as_str(), "arch") {
        str_eq(cond.value.as_str(), env.arch.as_str())
    } else {
        false
    }
}

fn rule_outcome_exec(rule: &Rule, options: Option<&LaunchOptions>, env: &Environment) -> (r:
    RuleAction)
    ensures
        r == rule_outcome(
            rule.deep_view(),
            flags_of(options),
            env.os@,
            env.arch@,
            env.os_version,
        ),
{
    match &rule.features {
        Some(features) => {
            let mut mat = true;
            let mut i: usize = 0;
            while i < features.len() && mat
                invariant
                    i <= features@.len(),
                    mat == (forall|k: int|
                        0 <= k < i ==> feature_holds(
                            #[trigger] features.deep_view()[k].0,
                            flags_of(options),
                        )),
                decreases features.len() - i,
            {
                let f: &FeatureFlag = &features[i];
                mat = feature_holds_exec(&f.name, options);
                assert(features.deep_view()[i as int].0 == f.name@);
                i = i + 1;
            }
            if mat {
                rule.action
            } else {
                match rule.action {
                    RuleAction::Allow => RuleAction::Disallow,
                    RuleAction::Disallow => RuleAction::Allow,
                }
            }
        },
        None => match &rule.os {
            Some(conds) => {
                let mut mat = true;
                let mut i: usize = 0;
                while i < conds.len() && mat
                    invariant
                        i <= conds@.len(),
                        mat == (forall|k: int|
                            0 <= k < i ==> os_condition_holds(
                                #[trigger] conds.deep_view()[k].0,
                                conds.deep_view()[k].1,
                                env.os@,
                                env.arch@,
                                env.os_version,
                            )),
                    decreases conds.len() - i,
                {
                    mat = os_condition_holds_exec(&conds[i], env);
                    assert(conds.deep_view()[i as int].0 == conds[i as int].key@);
                    assert(conds.deep_view()[i as int].1 == conds[i as int].value@);
                    i = i + 1;
                }
                if mat {
                    rule.action
                } else {
                    match rule.action {
                        RuleAction::Allow => RuleAction::Disallow,
                        RuleAction::Disallow => RuleAction::Allow,
                    }
                }
            },
            None => rule.action,
        },
    }
}

/// Decides whether the rules of a library or argument allow it here.
pub fn match_rules(rules: &Vec<Rule>, options: Option<&LaunchOptions>, env: &Environment) -> (r:
    RuleAction)
    ensures
        r == rules_verdict(
            rules.deep_view(),
            flags_of(options),
            env.os@,
            env.arch@,
            env.os_version,
        ),
{
    let mut val = RuleAction::Allow;
    let mut i: usize = 0;
    while i < rules.len()
        invariant
            i <= rules@.len(),
            val == rules_verdict(
                rules.deep_view().take(i as int),
                flags_of(options),
                env.os@,
                env.arch@,
                env.os_version,
            ),
        decreases rules.len() - i,
    {
        val = rule_outcome_exec(&rules[i], options, env);
        assert(rules.deep_view().take(i + 1).last() == rules.deep_view()[i as int]);
        i = i + 1;
    }
    assert(rules.deep_view().take(i as int) =~= rules.deep_view());
    val
}

pub struct LaunchOptions {
    pub natives_directory: String,
    pub classpath: String,
    pub player_name: String,
    pub version: String,
    pub game_directory: String,
    pub assets_directory: String,
    pub assets_index: String,
    pub player_uuid: String,
    pub player_token: String,
    pub user_type: String,
    pub version_type: String,
    pub demo: bool,
    pub custom_resolution: bool,
    pub width: Option<String>,
    pub height: Option<String>,
}

impl Clone for LaunchOptions {
    fn clone(&self) -> (res: Self)
        ensures
            res == *self,
    {
        LaunchOptions {
            natives_directory: self.natives_directory.clone(),
            classpath: self.classpath.clone(),
            player_name: self.player_name.clone(),
            version: self.version.clone(),
            game_directory: self.game_directory.clone(),
            assets_directory: self.assets_directory.clone(),
            assets_index: self.assets_index.clone(),
            player_uuid: self.player_uuid.clone(),
            player_token: self.player_token.clone(),
            user_type: self.user_type.clone(),
            version_type: self.version_type.clone(),
            demo: self.demo,
            custom_resolution: self.custom_resolution,
            width: self.width.clone(),
            height: self.height.clone(),
        }
    }
}

/// The arguments a list of argument slots contributes: plain values as they
/// are, guarded values when their rules allow them here.
pub open spec fn expand_one(
    a: ArgModel,
    flags: Option<(bool, bool)>,
    os: Seq<char>,
    arch: Seq<char>,
    os_version: Option<(u64, u64, u64)>,
) -> Seq<Seq<char>> {
    match a {
        Either::Left(s) => seq![s],
        Either::Right(c) => if rules_verdict(c.rules, flags, os, arch, os_version)
            == RuleAction::Allow {
            match c.value {
                Either::Left(s) => seq![s],
                Either::Right(v) => v,
            }
        } else {
            seq![]
        },
    }
}

pub open spec fn expand_args(
    args: Seq<ArgModel>,
    flags: Option<(bool, bool)>,
    os: Seq<char>,
    arch: Seq<char>,
    os_version: Option<(u64, u64, u64)>,
) -> Seq<Seq<char>>
    decreases args.len(),
{
    if args.len() == 0 {
        seq![]
    } else {
        expand_args(args.drop_last(), flags, os, arch, os_version) + expand_one(
            args.last(),
            flags,
            os,
            arch,
            os_version,
        )
    }
}

/// The JVM arguments used when a manifest gives none.
pub open spec fn default_jvm_args() -> Seq<Seq<char>> {
    seq!["-Djava.library.path=${natives_directory}"@, "-cp"@, "${classpath}"@]
}

/// The logging argument: the manifest's argument with `${path}` set to the
/// local logging configuration file, when the manifest asks for one and its
/// file could be placed.
pub open spec fn log_args(v: MainModel, log_path: Option<Seq<char>>) -> Seq<Seq<char>> {
    match v.logging {
        Some(l) => match l.client {
            Some(c) => match log_path {
                Some(p) => seq![replace_spec(c.argument, "${path}"@, p)],
                None => seq![],
            },
            None => seq![],
        },
        None => seq![],
    }
}

/// The argument templates of a version: JVM arguments, logging argument,
/// main class and game arguments for modern manifests; the default JVM
/// arguments, the main class and the space-separated legacy arguments for
/// old ones; nothing when the manifest has neither.
pub open spec fn launch_args_model(
    v: MainModel,
    flags: (bool, bool),
    os: Seq<char>,
    arch: Seq<char>,
    os_version: Option<(u64, u64, u64)>,
    log_path: Option<Seq<char>>,
) -> Option<Seq<Seq<char>>> {
    match v.arguments {
        None => match v.minecraft_arguments {
            None => None,
            Some(ma) => Some(default_jvm_args().push(v.main_class) + split_spec(ma, ' ')),
        },
        Some(a) => Some(
            match a.jvm {
                None => default_jvm_args(),
                Some(j) => expand_args(j, Some(flags), os, arch, os_version),
            } + log_args(v, log_path) + seq![v.main_class] + expand_args(
                a.game,
                Some(flags),
                os,
                arch,
                os_version,
            ),
        ),
    }
}

/// In the modern form every JVM-side argument comes before the main class:
/// the JVM arguments (the defaults when the manifest gives none), then the
/// logging argument with `${path}` set to the local configuration file when
/// the manifest asks for one and it was placed, then the main class, then
/// the game arguments.
pub proof fn lemma_modern_args_order(
    v: MainModel,
    flags: (bool, bool),
    os: Seq<char>,
    arch: Seq<char>,
    os_version: Option<(u64, u64, u64)>,
    log_path: Option<Seq<char>>,
)
    requires
        v.arguments is Some,
    ensures
        ({
            let a = v.arguments->0;
            let jvm = match a.jvm {
                None => default_jvm_args(),
                Some(j) => expand_args(j, Some(flags), os, arch, os_version),
            };
            let game = expand_args(a.game, Some(flags), os, arch, os_version);
            let logged = v.logging is Some && v.logging->0.client is Some && log_path is Some;
            let main_at = jvm.len() + if logged {
                1int
            } else {
                0int
            };
            let r = launch_args_model(v, flags, os, arch, os_version, log_path);
            &&& r is Some
            &&& r->0.len() == main_at + 1 + game.len()
            &&& r->0.take(jvm.len() as int) == jvm
            &&& logged ==> r->0[jvm.len() as int] == replace_spec(
                v.logging->0.client->0.argument,
                "${path}"@,
                log_path->0,
            )
            &&& r->0[main_at] == v.main_class
            &&& r->0.skip(main_at + 1) == game
        }),
{
    let a = v.arguments->0;
    let jvm = match a.jvm {
        None => default_jvm_args(),
        Some(j) => expand_args(j, Some(flags), os, arch, os_version),
    };
    let game = expand_args(a.game, Some(flags), os, arch, os_version);
    let r = launch_args_model(v, flags, os, arch, os_version, log_path)->0;
    let l = log_args(v, log_path);
    assert(r == jvm + l + seq![v.main_class] + game);
    assert(r.take(jvm.len() as int) =~= jvm);
    assert(r.skip((jvm.len() + l.len() + 1) as int) =~= game);
}

/// In the legacy form the launch line is the three default JVM arguments
/// (library path, `-cp`, class path), the main class, then the legacy
/// arguments cut at each space.
pub proof fn lemma_legacy_args_order(
    v: MainModel,
    flags: (bool, bool),
    os: Seq<char>,
    arch: Seq<char>,
    os_version: Option<(u64, u64, u64)>,
    log_path: Option<Seq<char>>,
)
    requires
        v.arguments is None,
        v.minecraft_arguments is Some,
    ensures
        ({
            let r = launch_args_model(v, flags, os, arch, os_version, log_path);
            &&& r is Some
            &&& r->0.len() == 4 + split_spec(v.minecraft_arguments->0, ' ').len()
            &&& r->0[0] == "-Djava.library.path=${natives_directory}"@
            &&& r->0[1] == "-cp"@
            &&& r->0[2] == "${classpath}"@
            &&& r->0[3] == v.main_class
            &&& r->0.skip(4) == split_spec(v.minecraft_arguments->0, ' ')
        }),
{
    let r = launch_args_model(v, flags, os, arch, os_version, log_path)->0;
    assert(r.skip(4) =~= split_spec(v.minecraft_arguments->0, ' '));
}

fn push_string(out: &mut Vec<String>, s: String)
    ensures
        final(out).deep_view() == old(out).deep_view().push(s@),
{
    out.push(s);
    assert(final(out).deep_view() =~= old(out).deep_view().push(s@));
}

fn push_default_jvm_args(out: &mut Vec<String>)
    ensures
        final(out).deep_view() == old(out).deep_view() + default_jvm_args(),
{
    push_string(out, to_owned_string("-Djava.library.path=${natives_directory}"));
    push_string(out, to_owned_string("-cp"));
    push_string(out, to_owned_string("${classpath}"));
    assert(final(out).deep_view() =~= old(out).deep_view() + default_jvm_args());
}

fn push_expanded(
    out: &mut Vec<String>,
    args: &Vec<Either<String, CustomArguments>>,
    options: &LaunchOptions,
    env: &Environment,
)
    ensures
        final(out).deep_view() == old(out).deep_view() + expand_args(
            args.deep_view(),
            Some((options.demo, options.custom_resolution)),
            env.os@,
            env.arch@,
            env.os_version,
        ),
{
    let ghost flags = Some((options.demo, options.custom_resolution));
    let ghost start = out.deep_view();
    let mut i: usize = 0;
    while i < args.len()
        invariant
            i <= args@.len(),
            flags == Some((options.demo, options.custom_resolution)),
            out.deep_view() == start + expand_args(
                args.deep_view().take(i as int),
                flags,
                env.os@,
                env.arch@,
                env.os_version,
            ),
        decreases args.len() - i,
    {
        let ghost before = out.deep_view();
        let ghost item = args.deep_view()[i as int];
        assert(item == args@[i as int].deep_view());
        match &args[i] {
            Either::Left(s) => {
                push_string(out, s.clone());
                assert(item == Either::<Seq<char>, crate::manifest::version::CustomArgumentsModel>::Left(s@));
            },
            Either::Right(custom) => {
                assert(item == Either::<Seq<char>, crate::manifest::version::CustomArgumentsModel>::Right(custom.deep_view()));
                assert(flags_of(Some(options)) == flags);
                let verdict = match_rules(&custom.rules, Some(options), env);
                match verdict {
                    RuleAction::Allow => match &custom.value {
                        Either::Left(s) => {
                            push_string(out, s.clone());
                        },
                        Either::Right(values) => {
                            let mut j: usize = 0;
                            while j < values.len()
                                invariant
                                    j <= values@.len(),
                                    out.deep_view() == before + values.deep_view().take(j as int),
                                decreases values.len() - j,
                            {
                                push_string(out, values[j].clone());
                                assert(values.deep_view().take(j + 1) =~= values.deep_view().take(
                                    j as int,
                                ).push(values@[j as int]@));
                                j = j + 1;
                            }
                            assert(values.deep_view().take(j as int) =~= values.deep_view());
                        },
                    },
                    RuleAction::Disallow => {
                        assert(out.deep_view() =~= before + seq![]);
                    },
                }
            },
        }
        assert(args.deep_view().take(i + 1).drop_last() =~= args.deep_view().take(i as int));
        assert(args.deep_view().take(i + 1).last() == item);
        assert(out.deep_view() =~= before + expand_one(
            item,
            flags,
            env.os@,
            env.arch@,
            env.os_version,
        ));
        i = i + 1;
    }
    assert(args.deep_view().take(i as int) =~= args.deep_view());
}

/// The logging configuration file the version asks for, if any.
pub fn log_config_file(version: &Main) -> (r: Option<ClientLoggingFile>)
    ensures
        r matches Some(f) ==> (version.deep_view().logging matches Some(l) && l.client matches Some(c)
            && c.file == f.deep_view()),
        r is None ==> !(version.deep_view().logging matches Some(l) && l.client is Some),
{
    match &version.logging {
        None => None,
        Some(logging) => match &logging.client {
            None => None,
            Some(client) => Some(client.file.clone()),
        },
    }
}

/// The argument templates of a version (see `launch_args_model`);
/// `log_path` is where the logging configuration file the version asks for
/// was placed, if it could be.
pub fn get_args_from_manifest(
    version: &Main,
    options: &LaunchOptions,
    env: &Environment,
    log_path: Option<String>,
) -> (r: Option<Vec<String>>)
    ensures
        r matches Some(v) ==> launch_args_model(
            version.deep_view(),
            (options.demo, options.custom_resolution),
            env.os@,
            env.arch@,
            env.os_version,
            log_path.deep_view(),
        ) == Some(v.deep_view()),
        r is None ==> launch_args_model(
            version.deep_view(),
            (options.demo, options.custom_resolution),
            env.os@,
            env.arch@,
            env.os_version,
            log_path.deep_view(),
        ) is None,
{
    match &version.arguments {
        None => match &version.minecraft_arguments {
            None => None,
            Some(minecraft_arguments) => {
                let mut command: Vec<String> = Vec::new();
                push_default_jvm_args(&mut command);
                push_string(&mut command, version.main_class.clone());
                let pieces = split_str(minecraft_arguments.as_str(), ' ');
                let ghost before = command.deep_view();
                let mut command = command;
                let mut pieces = pieces;
                command.append(&mut pieces);
                assert(command.deep_view() =~= before + split_spec(minecraft_arguments@, ' '));
                Some(command)
            },
        },
        Some(arguments) => {
            let mut command: Vec<String> = Vec::new();
            match &arguments.jvm {
                None => {
                    push_default_jvm_args(&mut command);
                },
                Some(jvm_args) => {
                    push_expanded(&mut command, jvm_args, options, env);
                },
            }
            let ghost after_jvm = command.deep_view();
            match &version.logging {
                None => {},
                Some(logging) => match &logging.client {
                    None => {},
                    Some(client_logging) => match &log_path {
                        None => {},
                        Some(p) => {
                            proof {
                                reveal_strlit("${path}");
                            }
                            let arg = replace_str(
                                client_logging.argument.as_str(),
                                "${path}",
                                p.as_str(),
                            );
                            push_string(&mut command, arg);
                        },
                    },
                },
            }
            assert(command.deep_view() =~= after_jvm + log_args(
                version.deep_view(),
                log_path.deep_view(),
            ));
            push_string(&mut command, version.main_class.clone());
            push_expanded(&mut command, &arguments.game, options, env);
            Some(command)
        },
    }
}

/// The library may be used on this machine.
pub open spec fn library_allowed(
    lib: LibraryModel,
    os: Seq<char>,
    arch: Seq<char>,
    os_version: Option<(u64, u64, u64)>,
) -> bool {
    match lib.rules {
        None => true,
        Some(r) => rules_verdict(r, None, os, arch, os_version) == RuleAction::Allow,
    }
}

/// The path, below the libraries folder, of the jar that a library puts on
/// the class path: `group/name/version/name-version[-native].jar`, built
/// from the `group:name:version` coordinates of the library (the group is
/// kept as written) and the native classifier of this operating system.
pub open spec fn classpath_library_path(lib: LibraryModel, os: Seq<char>) -> Seq<char> {
    let group = piece_or_empty(lib.name, ':', 0);
    let name = piece_or_empty(lib.name, ':', 1);
    let version = piece_or_empty(lib.name, ':', 2);
    let base = name + "-"@ + version;
    let file = match lib.natives {
        None => base,
        Some(n) => match assoc(n, os_name(os_of(os))) {
            None => base,
            Some(native) => base + "-"@ + native,
        },
    };
    group + "/"@ + name + "/"@ + version + "/"@ + file + ".jar"@
}

/// The class path entry of a library named `group:name:version` (no part
/// holding a `:`) lies in the folder `group/name/version` and is the jar
/// `name-version.jar`, or `name-version-native.jar` when the library names
/// a native for this system.
pub proof fn lemma_classpath_entry_layout(
    lib: LibraryModel,
    os: Seq<char>,
    group: Seq<char>,
    name: Seq<char>,
    version: Seq<char>,
)
    requires
        forall|k: int| 0 <= k < group.len() ==> group[k] != ':',
        forall|k: int| 0 <= k < name.len() ==> name[k] != ':',
        forall|k: int| 0 <= k < version.len() ==> version[k] != ':',
        lib.name == group + ":"@ + name + ":"@ + version,
    ensures
        lib.natives is None ==> classpath_library_path(lib, os) == group + "/"@ + name + "/"@
            + version + "/"@ + name + "-"@ + version + ".jar"@,
        lib.natives is Some && assoc(lib.natives->0, os_name(os_of(os))) is Some ==> ({
            let native = assoc(lib.natives->0, os_name(os_of(os)))->0;
            classpath_library_path(lib, os) == group + "/"@ + name + "/"@ + version + "/"@ + name
                + "-"@ + version + "-"@ + native + ".jar"@
        }),
{
    reveal_strlit(":");
    assert(":"@ =~= seq![':']);
    lemma_split_whole(group, ':');
    lemma_split_then(group, name, ':');
    lemma_split_then(group + seq![':'] + name, version, ':');
    assert(split_spec(lib.name, ':') =~= seq![group, name, version]);
    let prefix = group + "/"@ + name + "/"@ + version + "/"@;
    let base = name + "-"@ + version;
    assert(prefix + base + ".jar"@ =~= group + "/"@ + name + "/"@ + version + "/"@ + name + "-"@
        + version + ".jar"@);
    if lib.natives is Some && assoc(lib.natives->0, os_name(os_of(os))) is Some {
        let native = assoc(lib.natives->0, os_name(os_of(os)))->0;
        assert(prefix + (base + "-"@ + native) + ".jar"@ =~= group + "/"@ + name + "/"@ + version
            + "/"@ + name + "-"@ + version + "-"@ + native + ".jar"@);
    }
}

/// The class path entries of the allowed libraries, in manifest order.
pub open spec fn classpath_library_paths(
    libs: Seq<LibraryModel>,
    os: Seq<char>,
    arch: Seq<char>,
    os_version: Option<(u64, u64, u64)>,
) -> Seq<Seq<char>>
    decreases libs.len(),
{
    if libs.len() == 0 {
        seq![]
    } else {
        let rest = classpath_library_paths(libs.drop_last(), os, arch, os_version);
        if library_allowed(libs.last(), os, arch, os_version) {
            rest.push(classpath_library_path(libs.last(), os))
        } else {
            rest
        }
    }
}

fn piece(pieces: &Vec<String>, i: usize) -> (r: String)
    ensures
        r@ == (if i < pieces@.len() {
            pieces@[i as int]@
        } else {
            Seq::<char>::empty()
        }),
{
    if i < pieces.len() {
        pieces[i].clone()
    } else {
        String::new()
    }
}

fn classpath_library_path_exec(lib: &Library, env: &Environment) -> (r: String)
    ensures
        r@ == classpath_library_path(lib.deep_view(), env.os@),
{
    let pieces = split_str(lib.name.as_str(), ':');
    let group = piece(&pieces, 0);
    let name = piece(&pieces, 1);
    let version = piece(&pieces, 2);
    let mut base = name.clone();
    base.append("-");
    base.append(version.as_str());
    let file = match &lib.natives {
        None => base,
        Some(natives) => {
            let os = get_os(env).to_str();
            match lookup_string(natives, os.as_str()) {
                None => base,
                Some(native) => {
                    let mut f = base;
                    f.append("-");
                    f.append(native.as_str());
                    f
                },
            }
        },
    };
    let mut path = group;
    path.append("/");
    path.append(name.as_str());
    path.append("/");
    path.append(version.as_str());
    path.append("/");
    path.append(file.as_str());
    path.append(".jar");
    path
}

fn library_allowed_exec(lib: &Library, env: &Environment) -> (r: bool)
    ensures
        r == library_allowed(lib.deep_view(), env.os@, env.arch@, env.os_version),
{
    match &lib.rules {
        None => true,
        Some(rules) => match match_rules(rules, None, env) {
            RuleAction::Allow => true,
            RuleAction::Disallow => false,
        },
    }
}

/// The class path entries, below the libraries folder, of the libraries of
/// the version that are allowed here.
pub fn get_natives_library_paths(version: &Main, env: &Environment) -> (r: Vec<String>)
    ensures
        r.deep_view() == classpath_library_paths(
            version.deep_view().libraries,
            env.os@,
            env.arch@,
            env.os_version,
        ),
{
    let mut out: Vec<String> = Vec::new();
    let mut i: usize = 0;
    let ghost libs = version.deep_view().libraries;
    while i < version.libraries.len()
        invariant
            i <= version.libraries@.len(),
            libs == version.deep_view().libraries,
            out.deep_view() == classpath_library_paths(
                libs.take(i as int),
                env.os@,
                env.arch@,
                env.os_version,
            ),
        decreases version.libraries.len() - i,
    {
        let lib = &version.libraries[i];
        assert(libs.take(i + 1).drop_last() =~= libs.take(i as int));
        assert(libs.take(i + 1).last() == lib.deep_view());
        if library_allowed_exec(lib, env) {
            let p = classpath_library_path_exec(lib, env);
            push_string(&mut out, p);
        }
        i = i + 1;
    }
    assert(libs.take(i as int) =~= libs);
    out
}

/// The class path separator of the operating system.
pub open spec fn classpath_separator(os: Seq<char>) -> Seq<char> {
    if os_of(os) == Os::Windows {
        ";"@
    } else {
        ":"@
    }
}

/// The entries that could be placed, each followed by the separator.
pub open spec fn joined_entries(paths: Seq<Option<Seq<char>>>, sep: Seq<char>) -> Seq<char>
    decreases paths.len(),
{
    if paths.len() == 0 {
        seq![]
    } else {
        joined_entries(paths.drop_last(), sep) + match paths.last() {
            Some(p) => p + sep,
            None => seq![],
        }
    }
}

/// The class path: the placed library jars, each followed by the separator,
/// then the game jar when it could be placed.
pub fn get_natives(
    env: &Environment,
    library_paths: &Vec<Option<String>>,
    version_jar: &Option<String>,
) -> (r: String)
    ensures
        r@ == joined_entries(library_paths.deep_view(), classpath_separator(env.os@)) + match version_jar {
            Some(j) => j@,
            None => Seq::<char>::empty(),
        },
{
    let separator = match get_os(env) {
        Os::Windows => ";",
        _ => ":",
    };
    let mut native_arg = String::new();
    let mut i: usize = 0;
    while i < library_paths.len()
        invariant
            i <= library_paths@.len(),
            separator@ == classpath_separator(env.os@),
            native_arg@ == joined_entries(
                library_paths.deep_view().take(i as int),
                classpath_separator(env.os@),
            ),
        decreases library_paths.len() - i,
    {
        assert(library_paths.deep_view().take(i + 1).drop_last() =~= library_paths.deep_view().take(
            i as int,
        ));
        match &library_paths[i] {
            None => {
                assert(native_arg@ =~= native_arg@ + Seq::<char>::empty());
            },
            Some(p) => {
                native_arg.append(p.as_str());
                native_arg.append(separator);
            },
        }
        i = i + 1;
    }
    assert(library_paths.deep_view().take(i as int) =~= library_paths.deep_view());
    match version_jar {
        None => {
            assert(native_arg@ =~= native_arg@ + Seq::<char>::empty());
        },
        Some(j) => {
            native_arg.append(j.as_str());
        },
    }
    native_arg
}

/// The name of the asset index of a version: that of its asset index entry,
/// else its `assets` name.
pub open spec fn asset_index_name(v: MainModel) -> Option<Seq<char>> {
    match v.asset_index {
        Some(index) => Some(index.id),
        None => v.assets,
    }
}

/// A launch argument template with every placeholder the launcher knows
/// replaced, in the launcher's order.
pub open spec fn fill_model(
    arg: Seq<char>,
    o: LaunchOptions,
    launcher_version: Seq<char>,
    game_assets: Seq<char>,
) -> Seq<char> {
    let a = replace_spec(arg, "${natives_directory}"@, o.natives_directory@);
    let a = replace_spec(a, "${launcher_name}"@, "Rusty-Craft"@);
    let a = replace_spec(a, "${launcher_version}"@, launcher_version);
    let a = replace_spec(a, "${classpath}"@, o.classpath@);
    let a = replace_spec(a, "${auth_player_name}"@, o.player_name@);
    let a = replace_spec(a, "${version_name}"@, o.version@);
    let a = replace_spec(a, "${game_directory}"@, o.game_directory@);
    let a = replace_spec(a, "${assets_root}"@, o.assets_directory@);
    let a = replace_spec(a, "${assets_index_name}"@, o.assets_index@);
    let a = replace_spec(a, "${auth_uuid}"@, o.player_uuid@);
    let a = replace_spec(a, "${auth_access_token}"@, o.player_token@);
    let a = replace_spec(a, "${user_type}"@, o.user_type@);
    let a = replace_spec(a, "${version_type}"@, o.version_type@);
    let a = replace_spec(a, "${user_properties}"@, "{}"@);
    let a = replace_spec(
        a,
        "${resolution_width}"@,
        match o.width {
            None => "854"@,
            Some(w) => w@,
        },
    );
    let a = replace_spec(
        a,
        "${resolution_height}"@,
        match o.height {
            None => "480"@,
            Some(h) => h@,
        },
    );
    let a = replace_spec(a, "${game_assets}"@, game_assets);
    replace_spec(a, "${auth_session}"@, o.player_token@)
}

/// A text whose only `$` is its first character holds a placeholder only
/// as its own beginning.
proof fn lemma_only_leading_dollar(s: Seq<char>, pat: Seq<char>)
    requires
        pat.len() >= 1,
        pat[0] == '$',
        forall|k: int| 0 < k < s.len() ==> s[k] != '$',
        pat.len() > s.len() || s.subrange(0, pat.len() as int) != pat,
    ensures
        !contains_spec(s, pat),
{
    if contains_spec(s, pat) {
        let i = choose|i: int| occurs_at(s, pat, i);
        assert(s.subrange(i, i + pat.len())[0] == s[i]);
    }
}

/// The game directory placeholder is filled with the game directory: an
/// argument made of that placeholder alone becomes the options' game
/// directory (when that directory names no placeholder itself, which the
/// later replacements would fill in turn).
pub proof fn lemma_fill_game_directory(
    o: LaunchOptions,
    launcher_version: Seq<char>,
    game_assets: Seq<char>,
)
    requires
        !contains_spec(o.game_directory@, "${"@),
    ensures
        fill_model("${game_directory}"@, o, launcher_version, game_assets) == o.game_directory@,
{
    let arg = "${game_directory}"@;
    let g = o.game_directory@;
    reveal_strlit("${game_directory}");
    reveal_strlit("${natives_directory}");
    reveal_strlit("${launcher_name}");
    reveal_strlit("${launcher_version}");
    reveal_strlit("${classpath}");
    reveal_strlit("${auth_player_name}");
    reveal_strlit("${version_name}");
    reveal_strlit("${assets_root}");
    reveal_strlit("${assets_index_name}");
    reveal_strlit("${auth_uuid}");
    reveal_strlit("${auth_access_token}");
    reveal_strlit("${user_type}");
    reveal_strlit("${version_type}");
    reveal_strlit("${user_properties}");
    reveal_strlit("${resolution_width}");
    reveal_strlit("${resolution_height}");
    reveal_strlit("${game_assets}");
    reveal_strlit("${auth_session}");
    let before = seq![
        "${natives_directory}"@, "${launcher_name}"@, "${launcher_version}"@, "${classpath}"@,
        "${auth_player_name}"@, "${version_name}"@,
    ];
    let reps = seq![
        o.natives_directory@, "Rusty-Craft"@, launcher_version, o.classpath@, o.player_name@,
        o.version@,
    ];
    assert forall|j: int| 0 <= j < before.len() implies !contains_spec(arg, #[trigger] before[j]) by {
        let p = before[j];
        if p.len() <= arg.len() {
            assert(arg.subrange(0, p.len() as int)[2] != p[2]);
        }
        lemma_only_leading_dollar(arg, p);
    }
    assert(!contains_spec(arg, before[0]));
    lemma_replace_absent(arg, before[0], reps[0]);
    assert(!contains_spec(arg, before[1]));
    lemma_replace_absent(arg, before[1], reps[1]);
    assert(!contains_spec(arg, before[2]));
    lemma_replace_absent(arg, before[2], reps[2]);
    assert(!contains_spec(arg, before[3]));
    lemma_replace_absent(arg, before[3], reps[3]);
    assert(!contains_spec(arg, before[4]));
    lemma_replace_absent(arg, before[4], reps[4]);
    assert(!contains_spec(arg, before[5]));
    lemma_replace_absent(arg, before[5], reps[5]);
    assert(arg.subrange(0, arg.len() as int) =~= arg);
    assert(arg.skip(arg.len() as int) =~= Seq::<char>::empty());
    assert(replace_spec(arg, arg, g) == g + replace_spec(Seq::<char>::empty(), arg, g));
    assert(replace_spec(arg, arg, g) =~= g);
    let after = seq![
        "${assets_root}"@, "${assets_index_name}"@, "${auth_uuid}"@, "${auth_access_token}"@,
        "${user_type}"@, "${version_type}"@, "${user_properties}"@, "${resolution_width}"@,
        "${resolution_height}"@, "${game_assets}"@, "${auth_session}"@,
    ];
    assert forall|k: int| 0 <= k < after.len() implies !contains_spec(g, #[trigger] after[k]) by {
        lemma_no_placeholder(g, after[k]);
    }
    assert(!contains_spec(g, after[0]));
    lemma_replace_absent(g, after[0], o.assets_directory@);
    assert(!contains_spec(g, after[1]));
    lemma_replace_absent(g, after[1], o.assets_index@);
    assert(!contains_spec(g, after[2]));
    lemma_replace_absent(g, after[2], o.player_uuid@);
    assert(!contains_spec(g, after[3]));
    lemma_replace_absent(g, after[3], o.player_token@);
    assert(!contains_spec(g, after[4]));
    lemma_replace_absent(g, after[4], o.user_type@);
    assert(!contains_spec(g, after[5]));
    lemma_replace_absent(g, after[5], o.version_type@);
    assert(!contains_spec(g, after[6]));
    lemma_replace_absent(g, after[6], "{}"@);
    assert(!contains_spec(g, after[7]));
    lemma_replace_absent(g, after[7], match o.width {
        None => "854"@,
        Some(w) => w@,
    });
    assert(!contains_spec(g, after[8]));
    lemma_replace_absent(g, after[8], match o.height {
        None => "480"@,
        Some(h) => h@,
    });
    assert(!contains_spec(g, after[9]));
    lemma_replace_absent(g, after[9], game_assets);
    assert(!contains_spec(g, after[10]));
    lemma_replace_absent(g, after[10], o.player_token@);
}

/// A text without `${` holds none of the placeholders.
proof fn lemma_no_placeholder(s: Seq<char>, pat: Seq<char>)
    requires
        !contains_spec(s, "${"@),
        pat.len() >= 2,
        pat[0] == '$' && pat[1] == '{',
    ensures
        !contains_spec(s, pat),
{
    reveal_strlit("${");
    if contains_spec(s, pat) {
        let i = choose|i: int| occurs_at(s, pat, i);
        assert(s.subrange(i, i + 2) =~= "${"@);
        assert(occurs_at(s, "${"@, i));
    }
}

/// An argument without any `${` placeholder is passed on unchanged.
pub proof fn lemma_fill_keeps_plain_arguments(
    arg: Seq<char>,
    o: LaunchOptions,
    launcher_version: Seq<char>,
    game_assets: Seq<char>,
)
    requires
        !contains_spec(arg, "${"@),
    ensures
        fill_model(arg, o, launcher_version, game_assets) == arg,
{
    reveal_strlit("${natives_directory}");
    reveal_strlit("${launcher_name}");
    reveal_strlit("${launcher_version}");
    reveal_strlit("${classpath}");
    reveal_strlit("${auth_player_name}");
    reveal_strlit("${version_name}");
    reveal_strlit("${game_directory}");
    reveal_strlit("${assets_root}");
    reveal_strlit("${assets_index_name}");
    reveal_strlit("${auth_uuid}");
    reveal_strlit("${auth_access_token}");
    reveal_strlit("${user_type}");
    reveal_strlit("${version_type}");
    reveal_strlit("${user_properties}");
    reveal_strlit("${resolution_width}");
    reveal_strlit("${resolution_height}");
    reveal_strlit("${game_assets}");
    reveal_strlit("${auth_session}");
    let pats = seq![
        "${natives_directory}"@, "${launcher_name}"@, "${launcher_version}"@, "${classpath}"@,
        "${auth_player_name}"@, "${version_name}"@, "${game_directory}"@, "${assets_root}"@,
        "${assets_index_name}"@, "${auth_uuid}"@, "${auth_access_token}"@, "${user_type}"@,
        "${version_type}"@, "${user_properties}"@, "${resolution_width}"@,
        "${resolution_height}"@, "${game_assets}"@, "${auth_session}"@,
    ];
    assert forall|k: int| 0 <= k < pats.len() implies !contains_spec(arg, #[trigger] pats[k]) by {
        lemma_no_placeholder(arg, pats[k]);
    }
    assert(!contains_spec(arg, pats[0]));
    lemma_replace_absent(arg, "${natives_directory}"@, o.natives_directory@);
    assert(!contains_spec(arg, pats[1]));
    lemma_replace_absent(arg, "${launcher_name}"@, "Rusty-Craft"@);
    assert(!contains_spec(arg, pats[2]));
    lemma_replace_absent(arg, "${launcher_version}"@, launcher_version);
    assert(!contains_spec(arg, pats[3]));
    lemma_replace_absent(arg, "${classpath}"@, o.classpath@);
    assert(!contains_spec(arg, pats[4]));
    lemma_replace_absent(arg, "${auth_player_name}"@, o.player_name@);
    assert(!contains_spec(arg, pats[5]));
    lemma_replace_absent(arg, "${version_name}"@, o.version@);
    assert(!contains_spec(arg, pats[6]));
    lemma_replace_absent(arg, "${game_directory}"@, o.game_directory@);
    assert(!contains_spec(arg, pats[7]));
    lemma_replace_absent(arg, "${assets_root}"@, o.assets_directory@);
    assert(!contains_spec(arg, pats[8]));
    lemma_replace_absent(arg, "${assets_index_name}"@, o.assets_index@);
    assert(!contains_spec(arg, pats[9]));
    lemma_replace_absent(arg, "${auth_uuid}"@, o.player_uuid@);
    assert(!contains_spec(arg, pats[10]));
    lemma_replace_absent(arg, "${auth_access_token}"@, o.player_token@);
    assert(!contains_spec(arg, pats[11]));
    lemma_replace_absent(arg, "${user_type}"@, o.user_type@);
    assert(!contains_spec(arg, pats[12]));
    lemma_replace_absent(arg, "${version_type}"@, o.version_type@);
    assert(!contains_spec(arg, pats[13]));
    lemma_replace_absent(arg, "${user_properties}"@, "{}"@);
    assert(!contains_spec(arg, pats[14]));
    lemma_replace_absent(
        arg,
        "${resolution_width}"@,
        match o.width {
            None => "854"@,
            Some(w) => w@,
        },
    );
    assert(!contains_spec(arg, pats[15]));
    lemma_replace_absent(
        arg,
        "${resolution_height}"@,
        match o.height {
            None => "480"@,
            Some(h) => h@,
        },
    );
    assert(!contains_spec(arg, pats[16]));
    lemma_replace_absent(arg, "${game_assets}"@, game_assets);
    assert(!contains_spec(arg, pats[17]));
    lemma_replace_absent(arg, "${auth_session}"@, o.player_token@);
}

impl LaunchOptions {
    /// The launch options of a version for a player. `natives_directory` is
    /// the folder prepared for the version's natives (none if it could not be
    /// prepared), `classpath` the class path of the version, `game_directory`
    /// and `assets_directory` the game folder and its `assets` folder.
    pub fn from_version(
        version: &Main,
        player_name: String,
        player_uuid: String,
        player_token: String,
        user_type: String,
        natives_directory: Option<String>,
        classpath: String,
        game_directory: String,
        assets_directory: String,
    ) -> (r: Result<LaunchOptions, &'static str>)
        ensures
            natives_directory is None ==> (r matches Err(e) && e@
                == "Unable to get natives directory!"@),
            natives_directory is Some && asset_index_name(version.deep_view()) is None ==> (r matches Err(e)
                && e@ == "Unable to get asset index"@),
            natives_directory is Some && asset_index_name(version.deep_view()) is Some ==> (r matches Ok(o)
                && o.natives_directory == natives_directory->0 && o.classpath == classpath
                && o.player_name == player_name && o.version@ == version.id@
                && o.game_directory == game_directory && o.assets_directory
                == assets_directory && o.assets_index@ == asset_index_name(
                version.deep_view(),
            )->0 && o.player_uuid == player_uuid && o.player_token == player_token
                && o.user_type == user_type && o.version_type@
                == crate::manifest::version::version_type_name(version._type) && !o.demo
                && !o.custom_resolution && o.width is None && o.height is None),
    {
        let natives_directory = match natives_directory {
            None => {
                return Err("Unable to get natives directory!");
            },
            Some(dir) => dir,
        };
        let assets_index = match &version.asset_index {
            None => match &version.assets {
                None => {
                    return Err("Unable to get asset index");
                },
                Some(index) => index.clone(),
            },
            Some(index) => index.id.clone(),
        };
        let version_type = version._type.to_string();
        Ok(
            LaunchOptions {
                natives_directory,
                classpath,
                player_name,
                version: version.id.clone(),
                game_directory,
                assets_directory,
                assets_index,
                player_uuid,
                player_token,
                user_type,
                version_type,
                demo: false,
                custom_resolution: false,
                width: None,
                height: None,
            },
        )
    }

    fn fill_one(&self, arg: &String, launcher_version: &str, game_assets: &str) -> (r: String)
        ensures
            r@ == fill_model(arg@, *self, launcher_version@, game_assets@),
    {
        proof {
            reveal_strlit("${natives_directory}");
            reveal_strlit("${launcher_name}");
            reveal_strlit("${launcher_version}");
            reveal_strlit("${classpath}");
            reveal_strlit("${auth_player_name}");
            reveal_strlit("${version_name}");
            reveal_strlit("${game_directory}");
            reveal_strlit("${assets_root}");
            reveal_strlit("${assets_index_name}");
            reveal_strlit("${auth_uuid}");
            reveal_strlit("${auth_access_token}");
            reveal_strlit("${user_type}");
            reveal_strlit("${version_type}");
            reveal_strlit("${user_properties}");
            reveal_strlit("${resolution_width}");
            reveal_strlit("${resolution_height}");
            reveal_strlit("${game_assets}");
            reveal_strlit("${auth_session}");
        }
        let a = replace_str(arg.as_str(), "${natives_directory}", self.natives_directory.as_str());
        let a = replace_str(a.as_str(), "${launcher_name}", "Rusty-Craft");
        let a = replace_str(a.as_str(), "${launcher_version}", launcher_version);
        let a = replace_str(a.as_str(), "${classpath}", self.classpath.as_str());
        let a = replace_str(a.as_str(), "${auth_player_name}", self.player_name.as_str());
        let a = replace_str(a.as_str(), "${version_name}", self.version.as_str());
        let a = replace_str(a.as_str(), "${game_directory}", self.game_directory.as_str());
        let a = replace_str(a.as_str(), "${assets_root}", self.assets_directory.as_str());
        let a = replace_str(a.as_str(), "${assets_index_name}", self.assets_index.as_str());
        let a = replace_str(a.as_str(), "${auth_uuid}", self.player_uuid.as_str());
        let a = replace_str(a.as_str(), "${auth_access_token}", self.player_token.as_str());
        let a = replace_str(a.as_str(), "${user_type}", self.user_type.as_str());
        let a = replace_str(a.as_str(), "${version_type}", self.version_type.as_str());
        let a = replace_str(a.as_str(), "${user_properties}", "{}");
        let a = match &self.width {
            None => replace_str(a.as_str(), "${resolution_width}", "854"),
            Some(width) => replace_str(a.as_str(), "${resolution_width}", width.as_str()),
        };
        let a = match &self.height {
            None => replace_str(a.as_str(), "${resolution_height}", "480"),
            Some(height) => replace_str(a.as_str(), "${resolution_height}", height.as_str()),
        };
        let a = replace_str(a.as_str(), "${game_assets}", game_assets);
        replace_str(a.as_str(), "${auth_session}", self.player_token.as_str())
    }

    /// The launch arguments: each template with its placeholders filled.
    /// `launcher_version` is the version of this launcher, `game_assets` the
    /// game's `resources` folder.
    pub fn fill_argument_list(
        &mut self,
        args: Vec<String>,
        launcher_version: &str,
        game_assets: &str,
    ) -> (r: Vec<String>)
        ensures
            *final(self) == *old(self),
            r@.len() == args@.len(),
            forall|i: int|
                0 <= i < args@.len() ==> #[trigger] r@[i]@ == fill_model(
                    args@[i]@,
                    *old(self),
                    launcher_version@,
                    game_assets@,
                ),
    {
        let mut new_args: Vec<String> = Vec::new();
        let mut i: usize = 0;
        while i < args.len()
            invariant
                i <= args@.len(),
                new_args@.len() == i,
                *self == *old(self),
                forall|k: int|
                    0 <= k < i ==> #[trigger] new_args@[k]@ == fill_model(
                        args@[k]@,
                        *old(self),
                        launcher_version@,
                        game_assets@,
                    ),
            decreases args.len() - i,
        {
            let filled = self.fill_one(&args[i], launcher_version, game_assets);
            new_args.push(filled);
            i = i + 1;
        }
        new_args
    }
}

} // verus!
