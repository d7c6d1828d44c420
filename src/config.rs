use vstd::prelude::*;
use vstd::string::StringExecFns;

verus! {

/// How the configuration-file walk treats the declared project root.
#[derive(Clone, Copy, Debug, PartialEq, Eq, Structural)]
pub enum RootMode {
    /// The walk stops at the declared root.
    Root,
    /// The walk goes on past the declared root.
    Upward,
    /// As `Upward`; a missing root is no error.
    UpwardOptional,
}

impl Default for RootMode {
    fn default() -> (r: RootMode)
        ensures
            r == RootMode::Root,
    {
        RootMode::Root
    }
}

/// Whether to read a configuration file, or which one.
#[derive(Clone, Debug, PartialEq, Eq)]
pub enum ConfigFile {
    Bool(bool),
    Str(String),
}

impl Default for ConfigFile {
    fn default() -> (r: ConfigFile)
        ensures
            r == ConfigFile::Bool(true),
    {
        ConfigFile::Bool(true)
    }
}

/// Source-map policy of an invocation: on or off, or the path of the map.
#[derive(Clone, Debug, PartialEq, Eq)]
pub enum SourceMapsConfig {
    Bool(bool),
    Str(String),
}

impl Default for SourceMapsConfig {
    fn default() -> (r: SourceMapsConfig)
        ensures
            r == SourceMapsConfig::Bool(true),
    {
        SourceMapsConfig::Bool(true)
    }
}

/// Source map that came with the input: read it or not, or its path.
#[derive(Clone, Debug, PartialEq, Eq)]
pub enum InputSourceMap {
    Bool(bool),
    Str(String),
}

impl Default for InputSourceMap {
    fn default() -> (r: InputSourceMap)
        ensures
            r == InputSourceMap::Bool(true),
    {
        InputSourceMap::Bool(true)
    }
}

/// Whether configuration files are looked up on disk at all.
pub fn default_swcrc() -> (r: bool)
    ensures
        r,
{
    true
}

/// Dialect options of plain ECMAScript input.
#[derive(Clone, Copy, Debug, PartialEq, Eq, Structural)]
pub struct EsConfig {
    pub jsx: bool,
    pub decorators: bool,
    pub export_default_from: bool,
}

/// Dialect options of TypeScript input.
#[derive(Clone, Copy, Debug, PartialEq, Eq, Structural)]
pub struct TsConfig {
    pub tsx: bool,
    pub decorators: bool,
}

/// The target syntax: which dialect the parser accepts.
#[derive(Clone, Copy, Debug, PartialEq, Eq, Structural)]
pub enum Syntax {
    Es(EsConfig),
    Typescript(TsConfig),
}

impl Syntax {
    /// Whether the syntax is a statically typed superset of ECMAScript.
    pub open spec fn spec_is_typescript(&self) -> bool {
        self is Typescript
    }

    #[verifier::when_used_as_spec(spec_is_typescript)]
    pub fn is_typescript(&self) -> (r: bool)
        ensures
            r == self.spec_is_typescript(),
    {
        match self {
            Syntax::Typescript(_) => true,
            Syntax::Es(_) => false,
        }
    }
}

impl Default for Syntax {
    fn default() -> (r: Syntax)
        ensures
            r == Syntax::Es(EsConfig { jsx: false, decorators: false, export_default_from: false }),
    {
        Syntax::Es(EsConfig { jsx: false, decorators: false, export_default_from: false })
    }
}

/// Options of a module-format rewrite.
#[derive(Clone, Copy, Debug, PartialEq, Eq, Structural)]
pub struct ModuleOptions {
    pub strict: bool,
    pub strict_mode: bool,
    pub no_interop: bool,
}

/// The module format: an exclusive selector, replaced as a whole on merge.
#[derive(Clone, Copy, Debug, PartialEq, Eq, Structural)]
pub enum ModuleConfig {
    CommonJs(ModuleOptions),
    Umd(ModuleOptions),
}

/// Options of the JSX lowering pass.
#[derive(Debug)]
pub struct ReactOptions {
    pub pragma: String,
    pub pragma_frag: String,
    pub throw_if_namespace: bool,
    pub development: bool,
    pub use_builtins: bool,
}

/// What a `ReactOptions` holds.
pub struct ReactView {
    pub pragma: Seq<char>,
    pub pragma_frag: Seq<char>,
    pub throw_if_namespace: bool,
    pub development: bool,
    pub use_builtins: bool,
}

impl View for ReactOptions {
    type V = ReactView;

    open spec fn view(&self) -> ReactView {
        ReactView {
            pragma: self.pragma@,
            pragma_frag: self.pragma_frag@,
            throw_if_namespace: self.throw_if_namespace,
            development: self.development,
            use_builtins: self.use_builtins,
        }
    }
}

/// The JSX options used where a configuration gives none.
pub open spec fn default_react() -> ReactView {
    ReactView {
        pragma: "React.createElement"@,
        pragma_frag: "React.Fragment"@,
        throw_if_namespace: true,
        development: false,
        use_builtins: false,
    }
}

impl ReactOptions {
    /// A copy of these options.
    pub fn duplicate(&self) -> (r: ReactOptions)
        ensures
            r == *self,
    {
        ReactOptions {
            pragma: self.pragma.clone(),
            pragma_frag: self.pragma_frag.clone(),
            throw_if_namespace: self.throw_if_namespace,
            development: self.development,
            use_builtins: self.use_builtins,
        }
    }
}

impl Clone for ReactOptions {
    fn clone(&self) -> (r: ReactOptions)
        ensures
            r == *self,
    {
        self.duplicate()
    }
}

impl Default for ReactOptions {
    fn default() -> (r: ReactOptions)
        ensures
            r@ == default_react(),
    {
        ReactOptions {
            pragma: String::from_str("React.createElement"),
            pragma_frag: String::from_str("React.Fragment"),
            throw_if_namespace: true,
            development: false,
            use_builtins: false,
        }
    }
}

/// Global-variable inlining options: replacement text by symbol name, and the
/// names of the environment variables that may be inlined.
#[derive(Debug)]
pub struct GlobalPassOption {
    pub vars: Vec<(String, String)>,
    pub envs: Vec<String>,
}

/// What a `GlobalPassOption` holds.
pub struct GlobalsView {
    pub vars: Seq<(Seq<char>, Seq<char>)>,
    pub envs: Seq<Seq<char>>,
}

pub open spec fn pair_view(p: (String, String)) -> (Seq<char>, Seq<char>) {
    (p.0@, p.1@)
}

pub open spec fn pairs_view(v: Seq<(String, String)>) -> Seq<(Seq<char>, Seq<char>)> {
    v.map_values(|p: (String, String)| pair_view(p))
}

pub open spec fn strings_view(v: Seq<String>) -> Seq<Seq<char>> {
    v.map_values(|s: String| s@)
}

impl View for GlobalPassOption {
    type V = GlobalsView;

    open spec fn view(&self) -> GlobalsView {
        GlobalsView { vars: pairs_view(self.vars@), envs: strings_view(self.envs@) }
    }
}

/// Whether no two pairs share a name.
pub open spec fn distinct_names<V>(s: Seq<(Seq<char>, V)>) -> bool {
    forall|i: int, j: int| 0 <= i < j < s.len() ==> #[trigger] s[i].0 != #[trigger] s[j].0
}

/// Whether no name occurs twice.
pub open spec fn distinct(s: Seq<Seq<char>>) -> bool {
    forall|i: int, j: int| 0 <= i < j < s.len() ==> #[trigger] s[i] != #[trigger] s[j]
}

impl GlobalsView {
    /// Each symbol has one replacement, and each environment variable is
    /// listed once.
    pub open spec fn well_formed(self) -> bool {
        distinct_names(self.vars) && distinct(self.envs)
    }
}

/// The global-inlining options used where a configuration gives none: no
/// symbol, and the two well-known environment variables.
pub open spec fn default_globals() -> GlobalsView {
    GlobalsView { vars: seq![], envs: seq!["NODE_ENV"@, "SWC_ENV"@] }
}

/// A copy of a list of strings.
pub fn copy_strings(v: &Vec<String>) -> (r: Vec<String>)
    ensures
        r@ == v@,
{
    let mut r: Vec<String> = Vec::new();
    let mut i: usize = 0;
    while i < v.len()
        invariant
            i <= v@.len(),
            r@ == v@.subrange(0, i as int),
        decreases v@.len() - i,
    {
        r.push(v[i].clone());
        i = i + 1;
    }
    assert(r@ =~= v@);
    r
}

/// A copy of a list of string pairs.
pub fn copy_pairs(v: &Vec<(String, String)>) -> (r: Vec<(String, String)>)
    ensures
        r@ == v@,
{
    let mut r: Vec<(String, String)> = Vec::new();
    let mut i: usize = 0;
    while i < v.len()
        invariant
            i <= v@.len(),
            r@ == v@.subrange(0, i as int),
        decreases v@.len() - i,
    {
        let p = &v[i];
        r.push((p.0.clone(), p.1.clone()));
        i = i + 1;
    }
    assert(r@ =~= v@);
    r
}

/// The environment variables inlined when a configuration names none.
pub fn default_envs() -> (r: Vec<String>)
    ensures
        r@.len() == 2,
        r@[0]@ == "NODE_ENV"@,
        r@[1]@ == "SWC_ENV"@,
{
    let mut v: Vec<String> = Vec::new();
    v.push(String::from_str("NODE_ENV"));
    v.push(String::from_str("SWC_ENV"));
    v
}

impl GlobalPassOption {
    pub fn duplicate(&self) -> (r: GlobalPassOption)
        ensures
            r@ == self@,
    {
        GlobalPassOption { vars: copy_pairs(&self.vars), envs: copy_strings(&self.envs) }
    }
}

impl Clone for GlobalPassOption {
    fn clone(&self) -> (r: GlobalPassOption)
        ensures
            r@ == self@,
    {
        self.duplicate()
    }
}

impl Default for GlobalPassOption {
    fn default() -> (r: GlobalPassOption)
        ensures
            r@ == default_globals(),
            r@.well_formed(),
    {
        let r = GlobalPassOption { vars: Vec::new(), envs: default_envs() };
        assert(r@.vars =~= default_globals().vars);
        assert(r@.envs =~= default_globals().envs);
        proof {
            reveal_strlit("NODE_ENV");
            reveal_strlit("SWC_ENV");
            assert("NODE_ENV"@.len() == 8);
            assert("SWC_ENV"@.len() == 7);
            assert(r@.envs[0] != r@.envs[1]);
        }
        r
    }
}

pub open spec fn globals_view(o: Option<GlobalPassOption>) -> Option<GlobalsView> {
    match o {
        Some(g) => Some(g@),
        None => None,
    }
}

/// Optimizer options; the optimizer is enabled when the section is present.
#[derive(Debug)]
pub struct OptimizerConfig {
    pub globals: Option<GlobalPassOption>,
}

pub struct OptimizerView {
    pub globals: Option<GlobalsView>,
}

impl View for OptimizerConfig {
    type V = OptimizerView;

    open spec fn view(&self) -> OptimizerView {
        OptimizerView { globals: globals_view(self.globals) }
    }
}

impl Clone for OptimizerConfig {
    fn clone(&self) -> (r: OptimizerConfig)
        ensures
            r@ == self@,
    {
        let globals = match &self.globals {
            Some(g) => Some(g.duplicate()),
            None => None,
        };
        OptimizerConfig { globals }
    }
}

pub open spec fn optimizer_view(o: Option<OptimizerConfig>) -> Option<OptimizerView> {
    match o {
        Some(c) => Some(c@),
        None => None,
    }
}

pub open spec fn react_view(o: Option<ReactOptions>) -> Option<ReactView> {
    match o {
        Some(r) => Some(r@),
        None => None,
    }
}

/// The transform section: JSX options and the optimizer. Absent JSX options
/// inherit from a less specific scope, and default where none gives them.
#[derive(Debug)]
pub struct TransformConfig {
    pub react: Option<ReactOptions>,
    pub optimizer: Option<OptimizerConfig>,
}

pub struct TransformView {
    pub react: Option<ReactView>,
    pub optimizer: Option<OptimizerView>,
}

impl View for TransformConfig {
    type V = TransformView;

    open spec fn view(&self) -> TransformView {
        TransformView { react: react_view(self.react), optimizer: optimizer_view(self.optimizer) }
    }
}

impl Clone for TransformConfig {
    fn clone(&self) -> (r: TransformConfig)
        ensures
            r@ == self@,
    {
        let optimizer = match &self.optimizer {
            Some(o) => Some(o.clone()),
            None => None,
        };
        let react = match &self.react {
            Some(r) => Some(r.duplicate()),
            None => None,
        };
        TransformConfig { react, optimizer }
    }
}

impl Default for TransformConfig {
    fn default() -> (r: TransformConfig)
        ensures
            r@ == (TransformView { react: None, optimizer: None }),
    {
        TransformConfig { react: None, optimizer: None }
    }
}

pub open spec fn transform_view(o: Option<TransformConfig>) -> Option<TransformView> {
    match o {
        Some(c) => Some(c@),
        None => None,
    }
}

/// The `jsc` section: target syntax, transforms and helper policy.
#[derive(Debug)]
pub struct JscConfig {
    pub syntax: Option<Syntax>,
    pub transform: Option<TransformConfig>,
    pub external_helpers: Option<bool>,
}

pub struct JscView {
    pub syntax: Option<Syntax>,
    pub transform: Option<TransformView>,
    pub external_helpers: Option<bool>,
}

impl View for JscConfig {
    type V = JscView;

    open spec fn view(&self) -> JscView {
        JscView {
            syntax: self.syntax,
            transform: transform_view(self.transform),
            external_helpers: self.external_helpers,
        }
    }
}

impl Clone for JscConfig {
    fn clone(&self) -> (r: JscConfig)
        ensures
            r@ == self@,
    {
        let transform = match &self.transform {
            Some(t) => Some(t.clone()),
            None => None,
        };
        JscConfig { syntax: self.syntax, transform, external_helpers: self.external_helpers }
    }
}

impl Default for JscConfig {
    fn default() -> (r: JscConfig)
        ensures
            r@ == empty_jsc(),
    {
        JscConfig { syntax: None, transform: None, external_helpers: None }
    }
}

pub open spec fn empty_jsc() -> JscView {
    JscView { syntax: None, transform: None, external_helpers: None }
}

/// A partial configuration, as one configuration file or one invocation
/// gives it: an absent field inherits from a less specific scope.
#[derive(Debug)]
pub struct Config {
    pub jsc: JscConfig,
    pub module: Option<ModuleConfig>,
    pub minify: Option<bool>,
}

pub struct ConfigView {
    pub jsc: JscView,
    pub module: Option<ModuleConfig>,
    pub minify: Option<bool>,
}

impl View for Config {
    type V = ConfigView;

    open spec fn view(&self) -> ConfigView {
        ConfigView { jsc: self.jsc@, module: self.module, minify: self.minify }
    }
}

impl Clone for Config {
    fn clone(&self) -> (r: Config)
        ensures
            r@ == self@,
    {
        Config { jsc: self.jsc.clone(), module: self.module, minify: self.minify }
    }
}

/// The configuration that specifies nothing.
pub open spec fn empty_config() -> ConfigView {
    ConfigView { jsc: empty_jsc(), module: None, minify: None }
}

impl Default for Config {
    fn default() -> (r: Config)
        ensures
            r@ == empty_config(),
    {
        Config { jsc: JscConfig::default(), module: None, minify: None }
    }
}

pub open spec fn config_view(o: Option<Config>) -> Option<ConfigView> {
    match o {
        Some(c) => Some(c@),
        None => None,
    }
}

/// Who invoked the compiler.
#[derive(Clone, Debug)]
pub struct CallerOptions {
    pub name: String,
}

/// The options of one invocation: configuration overrides, and where and
/// how to look for configuration files.
#[derive(Debug)]
pub struct Options {
    /// Overrides that win over every configuration file.
    pub config: Option<Config>,
    pub cwd: String,
    pub caller: Option<CallerOptions>,
    /// The source file's path; empty for an anonymous source.
    pub filename: String,
    pub config_file: Option<ConfigFile>,
    /// The declared project root.
    pub root: Option<String>,
    pub root_mode: RootMode,
    /// Whether configuration files are looked up on disk.
    pub swcrc: bool,
    pub swcrc_roots: Option<String>,
    pub env_name: String,
    pub input_source_map: Option<InputSourceMap>,
    pub source_maps: Option<SourceMapsConfig>,
    pub source_file_name: Option<String>,
    pub source_root: Option<String>,
}

/// Whether a source-map policy asks for a map.
pub open spec fn spec_source_maps_enabled(p: &Option<SourceMapsConfig>) -> bool {
    match *p {
        None => false,
        Some(SourceMapsConfig::Bool(b)) => b,
        Some(SourceMapsConfig::Str(_)) => true,
    }
}

#[verifier::when_used_as_spec(spec_source_maps_enabled)]
pub fn source_maps_enabled(p: &Option<SourceMapsConfig>) -> (r: bool)
    ensures
        r == spec_source_maps_enabled(p),
{
    match p {
        None => false,
        Some(SourceMapsConfig::Bool(b)) => *b,
        Some(SourceMapsConfig::Str(_)) => true,
    }
}

/// The environment name: the first of the two well-known variables that is
/// set, else `development`.
pub fn default_env_name(swc_env: Option<String>, node_env: Option<String>) -> (r: String)
    ensures
        swc_env is Some ==> r == swc_env->Some_0,
        swc_env is None && node_env is Some ==> r == node_env->Some_0,
        swc_env is None && node_env is None ==> r@ == "development"@,
{
    match swc_env {
        Some(v) => v,
        None => match node_env {
            Some(v) => v,
            None => String::from_str("development"),
        },
    }
}

} // verus!
