//! The choices a caller makes, checked and turned into a converter.
use vstd::prelude::*;

use crate::boundary::{all_boundaries, boundaries_from_chars, boundaries_in, Boundary};
use crate::converter::Converter;
use crate::user_case::{case_named, UserCase};
use crate::user_pattern::{pattern_named, UserPattern};

verus! {

/// The option that named a case.
#[derive(Debug, Clone, Copy, PartialEq, Eq, Structural)]
pub enum CaseOption {
    /// The case to write the output in.
    To,
    /// The case to read the input as.
    From,
}

/// Why the choices do not make a converter.
#[derive(Debug, Clone, Copy, PartialEq, Eq, Structural)]
pub enum ConfigError {
    /// The option names no case.
    UnknownCaseName(CaseOption),
    /// The pattern option names no pattern.
    UnknownPatternName,
    /// Both a case to read as and a string of boundaries were given.
    ConflictingSourceSpecification,
    /// A case to write in was given with a pattern or a delimiter.
    ConflictingTargetSpecification,
    /// Neither a case to write in nor a pattern was given.
    MissingTargetSpecification,
}

/// The choices, as the names and strings that the caller gave.
pub struct Options {
    /// The name of the case to write the output in.
    pub to: Option<String>,
    /// The name of the case to read the input as.
    pub from: Option<String>,
    /// A string that shows the boundaries to split the input at.
    pub boundaries: Option<String>,
    /// The name of the pattern that recases the words.
    pub pattern: Option<String>,
    /// The string that joins the words.
    pub delimiter: Option<String>,
}

/// The case that an optional name names, if it is given and names one.
pub open spec fn case_of(name: Option<String>) -> Option<UserCase> {
    match name {
        Some(n) => case_named(n@),
        None => None,
    }
}

/// The pattern that an optional name names, if it is given and names one.
pub open spec fn pattern_of(name: Option<String>) -> Option<UserPattern> {
    match name {
        Some(n) => pattern_named(n@),
        None => None,
    }
}

impl Options {
    /// The first fault of the choices, in the order in which they are checked:
    /// names first, then options that exclude each other, then a missing target.
    pub open spec fn error_spec(&self) -> Option<ConfigError> {
        if self.to is Some && case_of(self.to) is None {
            Some(ConfigError::UnknownCaseName(CaseOption::To))
        } else if self.from is Some && case_of(self.from) is None {
            Some(ConfigError::UnknownCaseName(CaseOption::From))
        } else if self.pattern is Some && pattern_of(self.pattern) is None {
            Some(ConfigError::UnknownPatternName)
        } else if self.from is Some && self.boundaries is Some {
            Some(ConfigError::ConflictingSourceSpecification)
        } else if self.to is Some && (self.pattern is Some || self.delimiter is Some) {
            Some(ConfigError::ConflictingTargetSpecification)
        } else if self.to is None && self.pattern is None {
            Some(ConfigError::MissingTargetSpecification)
        } else {
            None
        }
    }

    /// The boundaries to split at: those of the source case, else those the
    /// boundary string shows (none for an empty string), else every boundary.
    pub open spec fn boundaries_spec(&self) -> Seq<Boundary> {
        match self.from {
            Some(f) => case_named(f@)->0.boundaries_spec(),
            None => match self.boundaries {
                Some(b) => if b@.len() == 0 {
                    Seq::empty()
                } else {
                    boundaries_in(b@)
                },
                None => all_boundaries(),
            },
        }
    }

    /// The pattern to recase with: that of the target case, else the one named.
    pub open spec fn pattern_spec(&self) -> UserPattern {
        match self.to {
            Some(t) => case_named(t@)->0.pattern_spec(),
            None => pattern_of(self.pattern)->0,
        }
    }

    /// The delimiter to join with: that of the target case, else the one
    /// given, else nothing.
    pub open spec fn delim_spec(&self) -> Seq<char> {
        match self.to {
            Some(t) => case_named(t@)->0.delim_spec(),
            None => match self.delimiter {
                Some(d) => d@,
                None => Seq::empty(),
            },
        }
    }

    /// Checks the choices and builds the converter they describe.
    pub fn converter(&self) -> (r: Result<Converter, ConfigError>)
        ensures
            match self.error_spec() {
                Some(e) => r == Err::<Converter, ConfigError>(e),
                None => r matches Ok(c) && c.boundaries@ == self.boundaries_spec()
                    && c.pattern == self.pattern_spec() && c.delim@ == self.delim_spec(),
            },
    {
        let to = match &self.to {
            Some(n) => match UserCase::from_name(n.as_str()) {
                Some(c) => Some(c),
                None => return Err(ConfigError::UnknownCaseName(CaseOption::To)),
            },
            None => None,
        };
        let from = match &self.from {
            Some(n) => match UserCase::from_name(n.as_str()) {
                Some(c) => Some(c),
                None => return Err(ConfigError::UnknownCaseName(CaseOption::From)),
            },
            None => None,
        };
        let pattern = match &self.pattern {
            Some(n) => match UserPattern::from_name(n.as_str()) {
                Some(p) => Some(p),
                None => return Err(ConfigError::UnknownPatternName),
            },
            None => None,
        };
        if from.is_some() && self.boundaries.is_some() {
            return Err(ConfigError::ConflictingSourceSpecification);
        }
        if to.is_some() && (pattern.is_some() || self.delimiter.is_some()) {
            return Err(ConfigError::ConflictingTargetSpecification);
        }
        let mut conv = Converter::new();
        if let Some(c) = from {
            conv = conv.from_case(c);
        } else if let Some(b) = &self.boundaries {
            let bs = boundaries_from_chars(b.as_str());
            conv = conv.set_boundaries(&bs);
        }
        if let Some(c) = to {
            conv = conv.to_case(c);
        } else if let Some(p) = pattern {
            conv = conv.set_pattern(p);
            if let Some(d) = &self.delimiter {
                conv = conv.set_delim(d.as_str());
            }
        } else {
            return Err(ConfigError::MissingTargetSpecification);
        }
        Ok(conv)
    }
}

} // verus!
