//! Right-biased merge of partial configurations: a field that the override
//! specifies replaces the base's, except that "enable" flags combine by `||`
//! when both sides specify them.

use vstd::prelude::*;
use crate::config::{
    Config, ConfigView, GlobalPassOption, JscConfig, JscView, OptimizerConfig, OptimizerView,
    TransformConfig, TransformView,
};

verus! {

/// An "enable" flag: present on both sides, the two combine by `||`.
pub open spec fn merge_flag(base: Option<bool>, over: Option<bool>) -> Option<bool> {
    match over {
        None => base,
        Some(y) => match base {
            Some(x) => Some(x || y),
            None => Some(y),
        },
    }
}

/// An exclusive selector or a coarse field: the override's value, if any.
pub open spec fn merge_selector<T>(base: Option<T>, over: Option<T>) -> Option<T> {
    match over {
        Some(_) => over,
        None => base,
    }
}

pub open spec fn merge_optimizer(base: Option<OptimizerView>, over: Option<OptimizerView>) -> Option<
    OptimizerView,
> {
    match over {
        None => base,
        Some(o) => match base {
            Some(b) => Some(OptimizerView { globals: merge_selector(b.globals, o.globals) }),
            None => Some(o),
        },
    }
}

pub open spec fn merge_transform(base: TransformView, over: TransformView) -> TransformView {
    TransformView {
        react: merge_selector(base.react, over.react),
        optimizer: merge_optimizer(base.optimizer, over.optimizer),
    }
}

pub open spec fn merge_transform_opt(base: Option<TransformView>, over: Option<TransformView>) -> Option<
    TransformView,
> {
    match over {
        None => base,
        Some(o) => match base {
            Some(b) => Some(merge_transform(b, o)),
            None => Some(o),
        },
    }
}

pub open spec fn merge_jsc(base: JscView, over: JscView) -> JscView {
    JscView {
        syntax: merge_selector(base.syntax, over.syntax),
        transform: merge_transform_opt(base.transform, over.transform),
        external_helpers: merge_flag(base.external_helpers, over.external_helpers),
    }
}

/// `over` applied on top of `base`.
pub open spec fn merge_config(base: ConfigView, over: ConfigView) -> ConfigView {
    ConfigView {
        jsc: merge_jsc(base.jsc, over.jsc),
        module: merge_selector(base.module, over.module),
        minify: merge_flag(base.minify, over.minify),
    }
}

/// Merges an "enable" flag of `from` into `flag`.
pub fn merge_flag_into(flag: &mut Option<bool>, from: &Option<bool>)
    ensures
        *final(flag) == merge_flag(*old(flag), *from),
{
    match from {
        Some(v) => match flag {
            Some(s) => {
                *s = *s || *v;
            },
            None => {
                *flag = Some(*v);
            },
        },
        None => {},
    }
}

impl GlobalPassOption {
    /// Global-inlining options are replaced as a whole.
    pub fn merge(&mut self, from: &GlobalPassOption)
        ensures
            final(self)@ == from@,
    {
        *self = from.duplicate();
    }
}

impl OptimizerConfig {
    pub fn merge(&mut self, from: &OptimizerConfig)
        ensures
            final(self)@ == (OptimizerView {
                globals: merge_selector(old(self)@.globals, from@.globals),
            }),
    {
        match &from.globals {
            Some(g) => match &mut self.globals {
                Some(s) => s.merge(g),
                None => {
                    self.globals = Some(g.duplicate());
                },
            },
            None => {},
        }
    }
}

impl TransformConfig {
    pub fn merge(&mut self, from: &TransformConfig)
        ensures
            final(self)@ == merge_transform(old(self)@, from@),
    {
        match &from.optimizer {
            Some(o) => match &mut self.optimizer {
                Some(s) => s.merge(o),
                None => {
                    self.optimizer = Some(o.clone());
                },
            },
            None => {},
        }
        if let Some(r) = &from.react {
            self.react = Some(r.duplicate());
        }
    }
}

impl JscConfig {
    pub fn merge(&mut self, from: &JscConfig)
        ensures
            final(self)@ == merge_jsc(old(self)@, from@),
    {
        if let Some(s) = from.syntax {
            self.syntax = Some(s);
        }
        match &from.transform {
            Some(t) => match &mut self.transform {
                Some(s) => s.merge(t),
                None => {
                    self.transform = Some(t.clone());
                },
            },
            None => {},
        }
        merge_flag_into(&mut self.external_helpers, &from.external_helpers);
    }
}

impl Config {
    /// Applies the overrides of `from`.
    pub fn merge(&mut self, from: &Config)
        ensures
            final(self)@ == merge_config(old(self)@, from@),
    {
        self.jsc.merge(&from.jsc);
        if let Some(m) = from.module {
            self.module = Some(m);
        }
        merge_flag_into(&mut self.minify, &from.minify);
    }
}

/// The value of the most specific of three layers that specifies one.
pub open spec fn most_specific<T>(a: Option<T>, b: Option<T>, c: Option<T>) -> Option<T> {
    if c is Some {
        c
    } else if b is Some {
        b
    } else {
        a
    }
}

/// An "enable" flag over three layers: absent if no layer specifies it, else
/// whether some layer enables it.
pub open spec fn any_enabled(a: Option<bool>, b: Option<bool>, c: Option<bool>) -> Option<bool> {
    if a is None && b is None && c is None {
        None
    } else {
        Some(a == Some(true) || b == Some(true) || c == Some(true))
    }
}

/// An override that leaves a field absent keeps the base's, at every level
/// of nesting: a missing transform section, missing JSX options, a missing
/// optimizer section.
pub proof fn absent_fields_keep_the_base(a: ConfigView, b: ConfigView)
    ensures
        b.jsc.transform is None ==> merge_config(a, b).jsc.transform == a.jsc.transform,
        b.jsc.syntax is None ==> merge_config(a, b).jsc.syntax == a.jsc.syntax,
        b.module is None ==> merge_config(a, b).module == a.module,
        b.minify is None ==> merge_config(a, b).minify == a.minify,
        a.jsc.transform matches Some(ta) ==> (b.jsc.transform matches Some(tb) ==> (tb.react is None
            ==> merge_config(a, b).jsc.transform->Some_0.react == ta.react)),
        a.jsc.transform matches Some(ta) ==> (b.jsc.transform matches Some(tb) ==> (tb.optimizer is None
            ==> merge_config(a, b).jsc.transform->Some_0.optimizer == ta.optimizer)),
{
}

/// Layered merge is associative: merging `b` then `c` into `a` gives what
/// merging `c` into `b`, and that into `a`, gives.
pub proof fn merge_is_associative(a: ConfigView, b: ConfigView, c: ConfigView)
    ensures
        merge_config(merge_config(a, b), c) == merge_config(a, merge_config(b, c)),
{
}

/// Merging three layers from least to most specific takes each selector
/// field from the most specific layer that specifies it, and enables a flag
/// exactly when some layer enables it.
pub proof fn layered_merge_takes_most_specific(a: ConfigView, b: ConfigView, c: ConfigView)
    ensures
        merge_config(merge_config(a, b), c).module == most_specific(a.module, b.module, c.module),
        merge_config(merge_config(a, b), c).jsc.syntax == most_specific(
            a.jsc.syntax,
            b.jsc.syntax,
            c.jsc.syntax,
        ),
        merge_config(merge_config(a, b), c).minify == any_enabled(a.minify, b.minify, c.minify),
        merge_config(merge_config(a, b), c).jsc.external_helpers == any_enabled(
            a.jsc.external_helpers,
            b.jsc.external_helpers,
            c.jsc.external_helpers,
        ),
{
}

/// "Enable" flags merge by `||` and in one direction: `true` over an absent
/// flag gives `true`, an absent flag over `false` keeps `false`, and a flag
/// that either side enables stays enabled.
pub proof fn enable_flags_merge_by_or(a: ConfigView, b: ConfigView)
    ensures
        a.minify is None && b.minify == Some(true) ==> merge_config(a, b).minify == Some(true),
        a.minify == Some(false) && b.minify is None ==> merge_config(a, b).minify == Some(false),
        a.minify == Some(true) && b.minify is None ==> merge_config(a, b).minify == Some(true),
        a.minify == Some(true) || b.minify == Some(true) ==> merge_config(a, b).minify == Some(
            true,
        ),
        a.jsc.external_helpers is None && b.jsc.external_helpers == Some(true)
            ==> merge_config(a, b).jsc.external_helpers == Some(true),
        a.jsc.external_helpers == Some(false) && b.jsc.external_helpers is None
            ==> merge_config(a, b).jsc.external_helpers == Some(false),
        a.jsc.external_helpers == Some(true) || b.jsc.external_helpers == Some(true)
            ==> merge_config(a, b).jsc.external_helpers == Some(true),
{
}

} // verus!
