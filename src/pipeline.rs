//! The pipeline builder: from a merged configuration to the ordered pass
//! chain and the options that its passes are instantiated from.

use vstd::prelude::*;
use vstd::string::StringExecFns;
use crate::config::{
    Config, ConfigView, EsConfig, GlobalPassOption, GlobalsView, JscConfig, ModuleConfig, Options,
    ReactOptions, ReactView, Syntax, TransformConfig, config_view, default_globals, default_react,
    copy_pairs, distinct_names, empty_config, pair_view, pairs_view, source_maps_enabled, spec_source_maps_enabled, strings_view,
};
use crate::error::Error;
use crate::merge::merge_config;

verus! {

/// One transform pass of the chain. A pass that takes options finds them in
/// the `BuiltConfig` that holds the chain, so that each compile can
/// instantiate it afresh.
#[derive(Clone, Copy, Debug, PartialEq, Eq, Structural)]
pub enum Pass {
    /// Strips type annotations.
    StripTypes,
    /// Inlines global symbols and allowed environment variables.
    InlineGlobals,
    /// Lowers JSX.
    Jsx,
    Decorators,
    ClassProperties,
    ExportDefaultFrom,
    /// Dead-code and expression simplification.
    Simplify,
    Es2018,
    Es2017,
    Es2016,
    Es2015,
    Es3,
    /// Rewrites modules to CommonJS.
    CommonJs,
    /// Rewrites modules to UMD.
    Umd,
    /// Inserts the runtime helpers that earlier passes referenced.
    InjectHelpers,
    /// Renames identifiers to resolve scope collisions.
    Hygiene,
    /// Repairs the invariants that the printer relies on.
    Fixer,
}

/// The module-format rewrite that a selector asks for, if any.
pub open spec fn module_pass(m: Option<ModuleConfig>) -> Seq<Pass> {
    match m {
        None => seq![],
        Some(ModuleConfig::CommonJs(_)) => seq![Pass::CommonJs],
        Some(ModuleConfig::Umd(_)) => seq![Pass::Umd],
    }
}

/// The pass chain, in its fixed order: type stripping only for typed
/// syntax, simplification only with the optimizer, a module rewrite only
/// where one is selected.
pub open spec fn pass_chain(syntax: Syntax, optimize: bool, module: Option<ModuleConfig>) -> Seq<
    Pass,
> {
    (if syntax.spec_is_typescript() {
        seq![Pass::StripTypes]
    } else {
        seq![]
    }) + seq![
        Pass::InlineGlobals,
        Pass::Jsx,
        Pass::Decorators,
        Pass::ClassProperties,
        Pass::ExportDefaultFrom,
    ] + (if optimize {
        seq![Pass::Simplify]
    } else {
        seq![]
    }) + seq![Pass::Es2018, Pass::Es2017, Pass::Es2016, Pass::Es2015, Pass::Es3] + module_pass(
        module,
    ) + seq![Pass::InjectHelpers, Pass::Hygiene, Pass::Fixer]
}

/// How a character is written inside a single-quoted string literal: a
/// backslash, a quote and the two line breaks that may not stand bare are
/// escaped, every other character stands for itself.
pub open spec fn escape_char(c: char) -> Seq<char> {
    if c == '\\' {
        seq!['\\', '\\']
    } else if c == '\'' {
        seq!['\\', '\'']
    } else if c == '\n' {
        seq!['\\', 'n']
    } else if c == '\r' {
        seq!['\\', 'r']
    } else {
        seq![c]
    }
}

/// The body of a single-quoted string literal whose value is `v`.
pub open spec fn escaped(v: Seq<char>) -> Seq<char>
    decreases v.len(),
{
    if v.len() == 0 {
        seq![]
    } else {
        escaped(v.drop_last()) + escape_char(v.last())
    }
}

/// A value as the source text of a string literal.
pub open spec fn quoted(v: Seq<char>) -> Seq<char> {
    seq!['\''] + escaped(v) + seq!['\'']
}

/// The character that a backslash escape stands for.
pub open spec fn unescape_char(c: char) -> char {
    if c == 'n' {
        '\n'
    } else if c == 'r' {
        '\r'
    } else {
        c
    }
}

/// The value that the body of a string literal denotes.
pub open spec fn literal_value(s: Seq<char>) -> Seq<char>
    decreases s.len(),
{
    if s.len() == 0 {
        seq![]
    } else if s[0] == '\\' && s.len() >= 2 {
        seq![unescape_char(s[1])] + literal_value(s.subrange(2, s.len() as int))
    } else {
        seq![s[0]] + literal_value(s.drop_first())
    }
}

/// Whether `s` can stand between single quotes: every backslash starts an
/// escape, and no quote or line break stands bare.
pub open spec fn literal_body(s: Seq<char>) -> bool
    decreases s.len(),
{
    if s.len() == 0 {
        true
    } else if s[0] == '\\' {
        s.len() >= 2 && literal_body(s.subrange(2, s.len() as int))
    } else {
        s[0] != '\'' && s[0] != '\n' && s[0] != '\r' && literal_body(s.drop_first())
    }
}

proof fn escaped_front(v: Seq<char>)
    requires
        v.len() > 0,
    ensures
        escaped(v) == escape_char(v[0]) + escaped(v.drop_first()),
    decreases v.len(),
{
    if v.len() > 1 {
        escaped_front(v.drop_last());
        assert(v.drop_last().drop_first() =~= v.drop_first().drop_last());
        assert(v.drop_first().last() == v.last());
        assert(v.drop_last()[0] == v[0]);
    } else {
        assert(v.drop_last() =~= Seq::<char>::empty());
        assert(v.drop_first() =~= Seq::<char>::empty());
    }
}

proof fn escaped_then(v: Seq<char>, t: Seq<char>)
    ensures
        literal_value(escaped(v) + t) == v + literal_value(t),
        literal_body(t) ==> literal_body(escaped(v) + t),
    decreases v.len(),
{
    if v.len() == 0 {
        assert(escaped(v) + t =~= t);
        assert(v + literal_value(t) =~= literal_value(t));
    } else {
        escaped_front(v);
        let rest = v.drop_first();
        escaped_then(rest, t);
        let w = escaped(rest) + t;
        let e = escape_char(v[0]);
        let s = e + w;
        assert(escaped(v) + t =~= s);
        if e.len() == 2 {
            assert(s.subrange(2, s.len() as int) =~= w);
        } else {
            assert(s.drop_first() =~= w);
        }
        assert(v =~= seq![v[0]] + rest);
        assert(v + literal_value(t) =~= seq![v[0]] + (rest + literal_value(t)));
    }
}

/// A quoted value is a string literal whose value is exactly that value: its
/// body holds no bare quote or line break, and reading its escapes back
/// gives the value.
pub proof fn quoted_is_a_literal_of_the_value(v: Seq<char>)
    ensures
        quoted(v) == seq!['\''] + escaped(v) + seq!['\''],
        literal_body(escaped(v)),
        literal_value(escaped(v)) == v,
{
    escaped_then(v, seq![]);
    assert(escaped(v) + seq![] =~= escaped(v));
    assert(v + seq![] =~= v);
}

pub open spec fn allowed(allow: Seq<Seq<char>>, name: Seq<char>) -> bool {
    exists|i: int| 0 <= i < allow.len() && allow[i] == name
}

/// The environment variables to inline, in the order of `env`, each with
/// its value as a string literal: those that `allow` names, and no other.
pub open spec fn env_inlines(allow: Seq<Seq<char>>, env: Seq<(Seq<char>, Seq<char>)>) -> Seq<
    (Seq<char>, Seq<char>),
>
    decreases env.len(),
{
    if env.len() == 0 {
        seq![]
    } else {
        let rest = env_inlines(allow, env.drop_last());
        let last = env.last();
        if allowed(allow, last.0) {
            rest.push((last.0, quoted(last.1)))
        } else {
            rest
        }
    }
}

/// Replacements for the global-inlining pass: replacement source text by
/// symbol, and by environment variable.
#[derive(Debug)]
pub struct GlobalsPlan {
    pub globals: Vec<(String, String)>,
    pub envs: Vec<(String, String)>,
}

pub struct GlobalsPlanView {
    pub globals: Seq<(Seq<char>, Seq<char>)>,
    pub envs: Seq<(Seq<char>, Seq<char>)>,
}

impl View for GlobalsPlan {
    type V = GlobalsPlanView;

    open spec fn view(&self) -> GlobalsPlanView {
        GlobalsPlanView { globals: pairs_view(self.globals@), envs: pairs_view(self.envs@) }
    }
}

impl GlobalsPlan {
    /// Checks the parser's verdict on each global's replacement text (`ok[i]`
    /// for the `i`-th global: whether it parsed as one expression). The
    /// first that did not is a configuration error that names the symbol
    /// and its text.
    pub fn check(&self, ok: &Vec<bool>) -> (r: Result<(), Error>)
        requires
            ok@.len() == self.globals@.len(),
        ensures
            r is Ok <==> forall|i: int| 0 <= i < ok@.len() ==> #[trigger] ok@[i],
            r matches Err(e) ==> exists|i: int|
                0 <= i < ok@.len() && !ok@[i] && (forall|j: int| 0 <= j < i ==> #[trigger] ok@[j])
                    && e == (Error::InvalidGlobal {
                    name: self.globals@[i].0,
                    value: self.globals@[i].1,
                }),
    {
        let mut i: usize = 0;
        while i < ok.len()
            invariant
                i <= ok@.len(),
                ok@.len() == self.globals@.len(),
                forall|j: int| 0 <= j < i ==> #[trigger] ok@[j],
            decreases ok@.len() - i,
        {
            if !ok[i] {
                let g = &self.globals[i];
                return Err(Error::InvalidGlobal { name: g.0.clone(), value: g.1.clone() });
            }
            i = i + 1;
        }
        Ok(())
    }
}

impl GlobalsPlanView {
    /// Each symbol and each environment variable has one replacement.
    pub open spec fn well_formed(self) -> bool {
        distinct_names(self.globals) && distinct_names(self.envs)
    }
}

/// Whether some pair of `env` has the name `n`.
pub open spec fn has_name(env: Seq<(Seq<char>, Seq<char>)>, n: Seq<char>) -> bool {
    exists|k: int| 0 <= k < env.len() && env[k].0 == n
}

/// Every name that `env_inlines` keeps is a name of `env`, and distinct
/// names stay distinct.
proof fn env_inlines_names(allow: Seq<Seq<char>>, env: Seq<(Seq<char>, Seq<char>)>)
    ensures
        forall|i: int|
            0 <= i < env_inlines(allow, env).len() ==> has_name(
                env,
                #[trigger] env_inlines(allow, env)[i].0,
            ),
        distinct_names(env) ==> distinct_names(env_inlines(allow, env)),
    decreases env.len(),
{
    if env.len() > 0 {
        let pre = env.drop_last();
        let rest = env_inlines(allow, pre);
        env_inlines_names(allow, pre);
        let r = env_inlines(allow, env);
        assert forall|i: int| 0 <= i < r.len() implies has_name(env, #[trigger] r[i].0) by {
            if i < rest.len() {
                assert(has_name(pre, rest[i].0));
                let k = choose|k: int| 0 <= k < pre.len() && pre[k].0 == rest[i].0;
                assert(env[k].0 == r[i].0);
            } else {
                assert(env[env.len() - 1].0 == r[i].0);
            }
        }
        if distinct_names(env) {
            assert(distinct_names(pre)) by {
                assert forall|i: int, j: int| 0 <= i < j < pre.len() implies #[trigger] pre[i].0
                    != #[trigger] pre[j].0 by {
                    assert(env[i].0 != env[j].0);
                }
            }
            assert forall|i: int, j: int| 0 <= i < j < r.len() implies #[trigger] r[i].0
                != #[trigger] r[j].0 by {
                if j >= rest.len() {
                    assert(has_name(pre, rest[i].0));
                    let k = choose|k: int| 0 <= k < pre.len() && pre[k].0 == rest[i].0;
                    assert(env[k].0 != env[env.len() - 1].0);
                } else {
                    assert(rest[i].0 != rest[j].0);
                }
            }
        }
    }
}

/// Environment inlining follows the allow-list exactly: every variable it
/// inlines is on the list, and every variable on the list that is set is
/// inlined, as a string literal of its value.
pub proof fn env_inlining_follows_allow_list(
    allow: Seq<Seq<char>>,
    env: Seq<(Seq<char>, Seq<char>)>,
)
    ensures
        forall|i: int|
            0 <= i < env_inlines(allow, env).len() ==> allowed(
                allow,
                #[trigger] env_inlines(allow, env)[i].0,
            ),
        forall|k: int|
            0 <= k < env.len() && allowed(allow, #[trigger] env[k].0) ==> env_inlines(
                allow,
                env,
            ).contains((env[k].0, quoted(env[k].1))),
    decreases env.len(),
{
    if env.len() > 0 {
        let pre = env.drop_last();
        env_inlining_follows_allow_list(allow, pre);
        let rest = env_inlines(allow, pre);
        let r = env_inlines(allow, env);
        assert forall|i: int| 0 <= i < r.len() implies allowed(allow, #[trigger] r[i].0) by {
            if i < rest.len() {
                assert(r[i] == rest[i]);
            }
        }
        assert forall|k: int| 0 <= k < env.len() && allowed(allow, #[trigger] env[k].0) implies r.contains(
            (env[k].0, quoted(env[k].1)),
        ) by {
            if k < pre.len() {
                assert(pre[k] == env[k]);
                let w = (env[k].0, quoted(env[k].1));
                assert(rest.contains(w));
                let i = choose|i: int| 0 <= i < rest.len() && rest[i] == w;
                assert(r[i] == w);
            } else {
                assert(r[r.len() - 1] == (env[k].0, quoted(env[k].1)));
            }
        }
    }
}

pub open spec fn globals_plan(g: GlobalsView, env: Seq<(Seq<char>, Seq<char>)>) -> GlobalsPlanView {
    GlobalsPlanView { globals: g.vars, envs: env_inlines(g.envs, env) }
}

/// Whether `allow` names `name`.
pub fn is_allowed(allow: &Vec<String>, name: &String) -> (r: bool)
    ensures
        r == allowed(strings_view(allow@), name@),
{
    let mut i: usize = 0;
    while i < allow.len()
        invariant
            i <= allow@.len(),
            forall|j: int| 0 <= j < i ==> allow@[j]@ != name@,
        decreases allow@.len() - i,
    {
        if allow[i].eq(name) {
            assert(strings_view(allow@)[i as int] == name@);
            return true;
        }
        i = i + 1;
    }
    assert forall|j: int| 0 <= j < strings_view(allow@).len() implies strings_view(allow@)[j]
        != name@ by {}
    false
}

/// `v` as the source text of a string literal.
pub fn quote(v: &String) -> (r: String)
    ensures
        r@ == quoted(v@),
{
    let s = v.as_str();
    let n = s.unicode_len();
    let mut q = String::from_str("'");
    proof {
        reveal_strlit("'");
    }
    let mut i: usize = 0;
    while i < n
        invariant
            i <= n,
            n == v@.len(),
            s@ == v@,
            q@ == seq!['\''] + escaped(v@.take(i as int)),
        decreases n - i,
    {
        let c = s.get_char(i);
        let ghost before = q@;
        proof {
            reveal_strlit("\\\\");
            reveal_strlit("\\'");
            reveal_strlit("\\n");
            reveal_strlit("\\r");
        }
        if c == '\\' {
            q.append("\\\\");
        } else if c == '\'' {
            q.append("\\'");
        } else if c == '\n' {
            q.append("\\n");
        } else if c == '\r' {
            q.append("\\r");
        } else {
            let one = s.substring_char(i, i + 1);
            assert(one@ =~= seq![c]);
            q.append(one);
        }
        proof {
            let t = v@.take(i + 1);
            assert(t.drop_last() =~= v@.take(i as int));
            assert(t.last() == c);
            assert(q@ =~= before + escape_char(c));
        }
        i = i + 1;
    }
    q.append("'");
    proof {
        reveal_strlit("'");
    }
    assert(v@.take(n as int) =~= v@);
    assert(q@ =~= quoted(v@));
    q
}

impl GlobalPassOption {
    /// The replacements that this option asks for, given the process's
    /// environment variables.
    pub fn build(self, env: &Vec<(String, String)>) -> (r: GlobalsPlan)
        ensures
            r@ == globals_plan(self@, pairs_view(env@)),
            self@.well_formed() && distinct_names(pairs_view(env@)) ==> r@.well_formed(),
    {
        let mut envs: Vec<(String, String)> = Vec::new();
        let mut i: usize = 0;
        while i < env.len()
            invariant
                i <= env@.len(),
                pairs_view(envs@) == env_inlines(
                    strings_view(self.envs@),
                    pairs_view(env@.subrange(0, i as int)),
                ),
            decreases env@.len() - i,
        {
            let p = &env[i];
            proof {
                let pre = pairs_view(env@.subrange(0, i as int + 1));
                assert(pre.drop_last() =~= pairs_view(env@.subrange(0, i as int)));
                assert(pre.last() == pair_view(env@[i as int]));
            }
            if is_allowed(&self.envs, &p.0) {
                let q = quote(&p.1);
                envs.push((p.0.clone(), q));
                proof {
                    assert(pairs_view(envs@) =~= pairs_view(envs@.drop_last()).push(
                        pair_view(envs@.last()),
                    ));
                }
            }
            i = i + 1;
        }
        assert(env@.subrange(0, env@.len() as int) =~= env@);
        proof {
            env_inlines_names(strings_view(self.envs@), pairs_view(env@));
        }
        GlobalsPlan { globals: self.vars, envs }
    }
}

impl ModuleConfig {
    /// The module-format rewrite pass that a selector asks for, if any.
    pub fn build(config: Option<ModuleConfig>) -> (r: Option<Pass>)
        ensures
            r matches Some(p) ==> module_pass(config) == seq![p],
            r is None ==> module_pass(config) == Seq::<Pass>::empty(),
    {
        match config {
            None => None,
            Some(ModuleConfig::CommonJs(_)) => Some(Pass::CommonJs),
            Some(ModuleConfig::Umd(_)) => Some(Pass::Umd),
        }
    }
}

/// The ordered pass chain for a syntax, an optimizer switch and a module
/// selector.
pub fn build_chain(syntax: Syntax, optimize: bool, module: Option<ModuleConfig>) -> (r: Vec<Pass>)
    ensures
        r@ == pass_chain(syntax, optimize, module),
{
    let mut v: Vec<Pass> = Vec::new();
    if syntax.is_typescript() {
        v.push(Pass::StripTypes);
    }
    v.push(Pass::InlineGlobals);
    v.push(Pass::Jsx);
    v.push(Pass::Decorators);
    v.push(Pass::ClassProperties);
    v.push(Pass::ExportDefaultFrom);
    if optimize {
        v.push(Pass::Simplify);
    }
    v.push(Pass::Es2018);
    v.push(Pass::Es2017);
    v.push(Pass::Es2016);
    v.push(Pass::Es2015);
    v.push(Pass::Es3);
    if let Some(p) = ModuleConfig::build(module) {
        v.push(p);
    }
    v.push(Pass::InjectHelpers);
    v.push(Pass::Hygiene);
    v.push(Pass::Fixer);
    assert(v@ =~= pass_chain(syntax, optimize, module));
    v
}

/// A configuration built for running: the concrete syntax, the pass chain,
/// and the options that its passes are instantiated from.
#[derive(Debug)]
pub struct BuiltConfig {
    pub passes: Vec<Pass>,
    pub syntax: Syntax,
    pub minify: bool,
    /// Whether a source map is emitted.
    pub source_maps: bool,
    /// Whether helpers come from an outside module rather than inline.
    pub external_helpers: bool,
    pub react: ReactOptions,
    pub globals: GlobalsPlan,
    pub module: Option<ModuleConfig>,
}

pub struct BuiltView {
    pub passes: Seq<Pass>,
    pub syntax: Syntax,
    pub minify: bool,
    pub source_maps: bool,
    pub external_helpers: bool,
    pub react: ReactView,
    pub globals: GlobalsPlanView,
    pub module: Option<ModuleConfig>,
}

impl View for BuiltConfig {
    type V = BuiltView;

    open spec fn view(&self) -> BuiltView {
        BuiltView {
            passes: self.passes@,
            syntax: self.syntax,
            minify: self.minify,
            source_maps: self.source_maps,
            external_helpers: self.external_helpers,
            react: self.react@,
            globals: self.globals@,
            module: self.module,
        }
    }
}

/// A copy of a pass chain.
pub fn copy_passes(v: &Vec<Pass>) -> (r: Vec<Pass>)
    ensures
        r@ == v@,
{
    let mut r: Vec<Pass> = Vec::new();
    let mut i: usize = 0;
    while i < v.len()
        invariant
            i <= v@.len(),
            r@ == v@.subrange(0, i as int),
        decreases v@.len() - i,
    {
        r.push(v[i]);
        i = i + 1;
    }
    assert(r@ =~= v@);
    r
}

impl GlobalsPlan {
    pub fn duplicate(&self) -> (r: GlobalsPlan)
        ensures
            r@ == self@,
    {
        GlobalsPlan { globals: copy_pairs(&self.globals), envs: copy_pairs(&self.envs) }
    }
}

impl BuiltConfig {
    /// A copy of this configuration, for a compile that runs it.
    pub fn duplicate(&self) -> (r: BuiltConfig)
        ensures
            r@ == self@,
    {
        BuiltConfig {
            passes: copy_passes(&self.passes),
            syntax: self.syntax,
            minify: self.minify,
            source_maps: self.source_maps,
            external_helpers: self.external_helpers,
            react: self.react.duplicate(),
            globals: self.globals.duplicate(),
            module: self.module,
        }
    }
}

pub open spec fn default_syntax() -> Syntax {
    Syntax::Es(EsConfig { jsx: false, decorators: false, export_default_from: false })
}

/// What a fully merged configuration builds to: every absent field takes
/// its default.
pub open spec fn built_of(c: ConfigView, source_maps: bool, env: Seq<(Seq<char>, Seq<char>)>) -> BuiltView {
    let syntax = match c.jsc.syntax {
        Some(s) => s,
        None => default_syntax(),
    };
    let optimizer = match c.jsc.transform {
        Some(t) => t.optimizer,
        None => None,
    };
    let react = match c.jsc.transform {
        Some(t) => match t.react {
            Some(r) => r,
            None => default_react(),
        },
        None => default_react(),
    };
    let globals = match optimizer {
        Some(o) => match o.globals {
            Some(g) => g,
            None => default_globals(),
        },
        None => default_globals(),
    };
    BuiltView {
        passes: pass_chain(syntax, optimizer is Some, c.module),
        syntax,
        minify: c.minify == Some(true),
        source_maps,
        external_helpers: c.jsc.external_helpers == Some(true),
        react,
        globals: globals_plan(globals, env),
        module: c.module,
    }
}

/// The invocation's configuration over a base: the base (or nothing) with
/// the invocation's overrides merged on top.
pub open spec fn layered(base: Option<ConfigView>, over: Option<ConfigView>) -> ConfigView {
    let b = match base {
        Some(c) => c,
        None => empty_config(),
    };
    match over {
        Some(o) => merge_config(b, o),
        None => b,
    }
}

/// Where no configuration file applies (lookup switched off, an anonymous
/// source, or none found), the configuration is the invocation's own over
/// the defaults: merging it into the empty configuration changes nothing.
pub proof fn no_file_means_invocation_only(over: Option<ConfigView>)
    ensures
        layered(None, over) == match over {
            Some(c) => c,
            None => empty_config(),
        },
{
    if let Some(c) = over {
        let m = merge_config(empty_config(), c);
        assert(m.jsc == c.jsc);
        assert(m == c);
    }
}

/// Builds a fully merged configuration.
pub fn build_config(config: Config, source_maps: bool, env: &Vec<(String, String)>) -> (r: BuiltConfig)
    ensures
        r@ == built_of(config@, source_maps, pairs_view(env@)),
{
    let Config { jsc, module, minify } = config;
    let JscConfig { syntax, transform, external_helpers } = jsc;
    let syntax = match syntax {
        Some(s) => s,
        None => Syntax::default(),
    };
    let transform = match transform {
        Some(t) => t,
        None => TransformConfig::default(),
    };
    let TransformConfig { react, optimizer } = transform;
    let react = match react {
        Some(r) => r,
        None => ReactOptions::default(),
    };
    let enable_optimizer = optimizer.is_some();
    let globals = match optimizer {
        Some(o) => match o.globals {
            Some(g) => g,
            None => GlobalPassOption::default(),
        },
        None => GlobalPassOption::default(),
    };
    let passes = build_chain(syntax, enable_optimizer, module);
    BuiltConfig {
        passes,
        syntax,
        minify: match minify {
            Some(m) => m,
            None => false,
        },
        source_maps,
        external_helpers: match external_helpers {
            Some(e) => e,
            None => false,
        },
        react,
        globals: globals.build(env),
        module,
    }
}

impl Options {
    /// Builds the configuration for this invocation: `config` (the applicable
    /// configuration file, if any) with the invocation's overrides on top.
    pub fn build(&self, config: Option<Config>, env: &Vec<(String, String)>) -> (r: BuiltConfig)
        ensures
            r@ == built_of(
                layered(config_view(config), config_view(self.config)),
                spec_source_maps_enabled(&self.source_maps),
                pairs_view(env@),
            ),
    {
        let mut config = match config {
            Some(c) => c,
            None => Config::default(),
        };
        if let Some(c) = &self.config {
            config.merge(c);
        }
        build_config(config, source_maps_enabled(&self.source_maps), env)
    }
}

/// The place of a pass in the fixed order.
pub open spec fn rank(p: Pass) -> int {
    match p {
        Pass::StripTypes => 0,
        Pass::InlineGlobals => 1,
        Pass::Jsx => 2,
        Pass::Decorators => 3,
        Pass::ClassProperties => 4,
        Pass::ExportDefaultFrom => 5,
        Pass::Simplify => 6,
        Pass::Es2018 => 7,
        Pass::Es2017 => 8,
        Pass::Es2016 => 9,
        Pass::Es2015 => 10,
        Pass::Es3 => 11,
        Pass::CommonJs => 12,
        Pass::Umd => 12,
        Pass::InjectHelpers => 13,
        Pass::Hygiene => 14,
        Pass::Fixer => 15,
    }
}

/// Every pass chain lists its passes in the fixed order, each at most once:
/// so hygiene runs after decorator lowering and after every downlevel pass,
/// helper injection after every pass that may reference a helper, and the
/// fixer last.
pub proof fn pass_chain_is_ordered(syntax: Syntax, optimize: bool, module: Option<ModuleConfig>)
    ensures
        forall|i: int, j: int|
            0 <= i < j < pass_chain(syntax, optimize, module).len() ==> rank(
                #[trigger] pass_chain(syntax, optimize, module)[i],
            ) < rank(#[trigger] pass_chain(syntax, optimize, module)[j]),
        pass_chain(syntax, optimize, module).contains(Pass::Decorators),
        pass_chain(syntax, optimize, module).contains(Pass::Hygiene),
        pass_chain(syntax, optimize, module).last() == Pass::Fixer,
{
    let c = pass_chain(syntax, optimize, module);
    assert forall|k: int| 0 <= k < c.len() - 1 implies rank(c[k]) < rank(#[trigger] c[k + 1]) by {}
    assert forall|i: int, j: int| 0 <= i < j < c.len() implies rank(#[trigger] c[i]) < rank(
        #[trigger] c[j],
    ) by {
        ranks_increase(c, i, j);
    }
    let k = if syntax.spec_is_typescript() { 3int } else { 2int };
    assert(c[k] == Pass::Decorators);
    assert(c[c.len() - 2] == Pass::Hygiene);
}

proof fn ranks_increase(c: Seq<Pass>, i: int, j: int)
    requires
        0 <= i < j < c.len(),
        forall|k: int| 0 <= k < c.len() - 1 ==> rank(c[k]) < rank(#[trigger] c[k + 1]),
    ensures
        rank(c[i]) < rank(c[j]),
    decreases j - i,
{
    if j > i + 1 {
        ranks_increase(c, i, j - 1);
        assert(rank(c[j - 1]) < rank(c[j - 1 + 1]));
    } else {
        assert(rank(c[i]) < rank(c[i + 1]));
    }
}

} // verus!
