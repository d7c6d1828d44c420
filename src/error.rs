//! The failures of a compile request, each with its cause where there is one.

use vstd::prelude::*;
use vstd::string::StringExecFns;

verus! {

#[derive(Debug)]
pub enum Error {
    FailedToReadConfigFile { err: String },
    FailedToParseConfigFile { err: String },
    FailedToParseModule,
    FailedToReadModule { err: String },
    FailedToEmitModule { err: String },
    FailedToWriteSourceMap { err: String },
    SourceMapNotUtf8,
    CodeNotUtf8,
    /// A global-inlining value that is not a single expression.
    InvalidGlobal { name: String, value: String },
}

/// `head` followed by `tail`.
fn joined(head: &str, tail: &String) -> (r: String)
    ensures
        r@ == head@ + tail@,
{
    let mut r = String::from_str(head);
    r.append(tail.as_str());
    r
}

impl Error {
    /// The message that reports this error.
    pub fn message(&self) -> (r: String)
        ensures
            *self matches Error::FailedToReadConfigFile { err } ==> r@ == "failed to read config file: "@
                + err@,
            *self matches Error::FailedToParseConfigFile { err } ==> r@
                == "failed to parse config file: "@ + err@,
            *self is FailedToParseModule ==> r@ == "failed to parse module"@,
            *self matches Error::FailedToReadModule { err } ==> r@ == "failed to read module: "@
                + err@,
            *self matches Error::FailedToEmitModule { err } ==> r@ == "failed to emit module: "@
                + err@,
            *self matches Error::FailedToWriteSourceMap { err } ==> r@
                == "failed to write sourcemap: "@ + err@,
            *self is SourceMapNotUtf8 ==> r@ == "sourcemap is not utf8"@,
            *self is CodeNotUtf8 ==> r@ == "code is not utf8"@,
            *self matches Error::InvalidGlobal { name, value } ==> r@
                == "invalid global variable "@ + name@ + "=`"@ + value@ + "`"@,
    {
        match self {
            Error::FailedToReadConfigFile { err } => joined("failed to read config file: ", err),
            Error::FailedToParseConfigFile { err } => joined("failed to parse config file: ", err),
            Error::FailedToParseModule => String::from_str("failed to parse module"),
            Error::FailedToReadModule { err } => joined("failed to read module: ", err),
            Error::FailedToEmitModule { err } => joined("failed to emit module: ", err),
            Error::FailedToWriteSourceMap { err } => joined("failed to write sourcemap: ", err),
            Error::SourceMapNotUtf8 => String::from_str("sourcemap is not utf8"),
            Error::CodeNotUtf8 => String::from_str("code is not utf8"),
            Error::InvalidGlobal { name, value } => {
                let mut r = joined("invalid global variable ", name);
                r.append("=`");
                r.append(value.as_str());
                r.append("`");
                r
            },
        }
    }
}

} // verus!
