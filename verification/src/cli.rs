use vstd::prelude::*;
use vstd::string::StrSliceExecFns;
use vstd::string::StringExecFns;

use crate::text::find_char;
use crate::text::first_occurrence;
use crate::text::split_tokens;
use crate::text::split_whitespace_tokens;
use crate::value::DynValue;

verus! {

/// The monitor's startup configuration.
#[derive(Debug)]
pub struct Config {
    /// D-Bus interface and service name to monitor.
    pub interface: String,
    /// D-Bus member (signal) to monitor.
    pub monitor: String,
    /// Initial status check in the form "service/path interface property".
    pub status: Option<String>,
    /// Type handler for the monitored data.
    pub type_handler: TypeHandler,
}

/// A parsed initial status query: which property to read from which object.
#[derive(Debug, Clone)]
pub struct StatusConfig {
    pub service: String,
    pub object_path: String,
    pub interface: String,
    pub property: String,
}

/// The mathematical shape of a [`StatusConfig`].
pub struct StatusConfigView {
    pub service: Seq<char>,
    pub object_path: Seq<char>,
    pub interface: Seq<char>,
    pub property: Seq<char>,
}

impl View for StatusConfig {
    type V = StatusConfigView;

    open spec fn view(&self) -> StatusConfigView {
        StatusConfigView {
            service: self.service@,
            object_path: self.object_path@,
            interface: self.interface@,
            property: self.property@,
        }
    }
}

/// How a status string parses: exactly three whitespace-separated tokens,
/// the first split at its first `/` into a non-empty service and an object
/// path that begins with the `/`; anything else is rejected.
pub open spec fn spec_parse_status(s: Seq<char>) -> Option<StatusConfigView> {
    let toks = split_tokens(s);
    if toks.len() != 3 {
        None
    } else {
        match first_occurrence(toks[0], '/') {
            Some(k) => {
                if k == 0 {
                    None
                } else {
                    Some(
                        StatusConfigView {
                            service: toks[0].take(k),
                            object_path: toks[0].skip(k),
                            interface: toks[1],
                            property: toks[2],
                        },
                    )
                }
            },
            None => None,
        }
    }
}

/// The message reported for a status string that does not parse.
pub open spec fn spec_status_error(s: Seq<char>) -> Seq<char> {
    let toks = split_tokens(s);
    if toks.len() != 3 {
        "invalid status format: expected 'service/path interface property'"@
    } else if first_occurrence(toks[0], '/') is None {
        "invalid status format: first token must be 'service/path'"@
    } else {
        "invalid status format: service name cannot be empty"@
    }
}

impl Config {
    /// The configured status string, if any, parses.
    pub open spec fn spec_status_ok(self) -> bool {
        match self.status {
            Some(st) => spec_parse_status(st@) is Some,
            None => true,
        }
    }

    /// Parse and validate the status configuration.
    pub fn parse_status(&self) -> (r: Result<Option<StatusConfig>, String>)
        ensures
            self.status is None ==> r matches Ok(None),
            self.status matches Some(st) ==> match spec_parse_status(st@) {
                Some(v) => r matches Ok(Some(c)) && c@ == v,
                None => r matches Err(m) && m@ == spec_status_error(st@),
            },
    {
        match &self.status {
            None => Ok(None),
            Some(status_str) => {
                let parts = split_whitespace_tokens(status_str.as_str());
                proof {
                    assert(parts.deep_view().len() == parts@.len());
                }
                if parts.len() != 3 {
                    return Err(
                        String::from_str(
                            "invalid status format: expected 'service/path interface property'",
                        ),
                    );
                }
                let service_path = &parts[0];
                proof {
                    assert(service_path@ == parts.deep_view()[0]);
                }
                match find_char(service_path.as_str(), '/') {
                    None => Err(
                        String::from_str("invalid status format: first token must be 'service/path'"),
                    ),
                    Some(k) => {
                        if k == 0 {
                            return Err(
                                String::from_str(
                                    "invalid status format: service name cannot be empty",
                                ),
                            );
                        }
                        proof {
                            crate::text::lemma_first_occurrence_properties(service_path@, '/');
                        }
                        let n = service_path.as_str().unicode_len();
                        let service = String::from_str(
                            service_path.as_str().substring_char(0, k),
                        );
                        let object_path = String::from_str(
                            service_path.as_str().substring_char(k, n),
                        );
                        proof {
                            assert(service@ =~= parts.deep_view()[0].take(k as int));
                            assert(object_path@ =~= parts.deep_view()[0].skip(k as int));
                            assert(parts[1]@ == parts.deep_view()[1]);
                            assert(parts[2]@ == parts.deep_view()[2]);
                        }
                        Ok(
                            Some(
                                StatusConfig {
                                    service,
                                    object_path,
                                    interface: parts[1].clone(),
                                    property: parts[2].clone(),
                                },
                            ),
                        )
                    },
                }
            },
        }
    }

    /// Validate the configuration and return an error if invalid.
    pub fn validate(&self) -> (r: Result<(), String>)
        ensures
            r is Ok <==> self.spec_status_ok(),
            r matches Err(m) ==> self.status matches Some(st) && m@ == spec_status_error(st@),
    {
        match self.parse_status() {
            Ok(_) => Ok(()),
            Err(e) => Err(e),
        }
    }
}

/// The handler for the monitored data's type.
#[derive(Debug)]
pub enum TypeHandler {
    /// Monitor a boolean value.
    Boolean {
        /// Text printed when the value is true.
        return_true: String,
        /// Text printed when the value is false.
        return_false: String,
    },
}

impl TypeHandler {
    /// The configured text for a decoded boolean.
    pub open spec fn output_view(self, b: bool) -> Seq<char> {
        match self {
            TypeHandler::Boolean { return_true, return_false } => if b {
                return_true@
            } else {
                return_false@
            },
        }
    }

    /// The mapped output for a payload: the text configured for the
    /// extracted boolean, or nothing when no boolean can be extracted.
    pub open spec fn spec_process(self, v: DynValue) -> Option<Seq<char>> {
        match v.spec_extract() {
            Some(b) => Some(self.output_view(b)),
            None => None,
        }
    }

    /// Extract a boolean from a decoded payload, opening nested dynamic
    /// values as needed.
    pub fn extract_boolean(&self, value: &DynValue) -> (r: Option<bool>)
        ensures
            r == value.spec_extract(),
    {
        match self {
            TypeHandler::Boolean { .. } => value.extract_bool(),
        }
    }

    /// Render the output line for a decoded boolean.
    pub fn boolean_output(&self, value: bool) -> (out: String)
        ensures
            out@ == self.output_view(value),
    {
        match self {
            TypeHandler::Boolean { return_true, return_false } => {
                if value {
                    return_true.clone()
                } else {
                    return_false.clone()
                }
            },
        }
    }

    /// Process a decoded payload into its output line, if one is owed.
    pub fn process(&self, value: &DynValue) -> (out: Option<String>)
        ensures
            match out {
                Some(s) => self.spec_process(*value) matches Some(t) && s@ == t,
                None => self.spec_process(*value) is None,
            },
    {
        match self.extract_boolean(value) {
            Some(b) => Some(self.boolean_output(b)),
            None => None,
        }
    }
}

/// What message decoding yields from the two decoding attempts: the direct
/// boolean if the payload deserialized as one, else extraction from the
/// dynamic value, else a decoding error with its diagnostic.
pub open spec fn spec_decide(direct: Option<bool>, fallback: Option<DynValue>) -> Result<
    bool,
    Seq<char>,
> {
    match direct {
        Some(b) => Ok(b),
        None => match fallback {
            Some(v) => match v.spec_extract() {
                Some(b) => Ok(b),
                None => Err(v.spec_failure_description()),
            },
            None => Err("failed to deserialize message payload"@),
        },
    }
}

impl TypeHandler {
    /// Combine the two decoding attempts on a message payload: the direct
    /// boolean wins; otherwise the dynamic value is unwrapped; otherwise the
    /// payload is undecodable.
    pub fn decide_payload(&self, direct: Option<bool>, fallback: Option<DynValue>) -> (r: Result<
        bool,
        String,
    >)
        ensures
            match r {
                Ok(b) => spec_decide(direct, fallback) == Ok::<bool, Seq<char>>(b),
                Err(m) => spec_decide(direct, fallback) matches Err(t) && m@ == t,
            },
    {
        match direct {
            Some(b) => Ok(b),
            None => match fallback {
                Some(v) => match v.extract_bool() {
                    Some(b) => Ok(b),
                    None => Err(v.failure_description()),
                },
                None => Err(String::from_str("failed to deserialize message payload")),
            },
        }
    }

    /// Deserialize a boolean value directly from a D-Bus message, falling
    /// back to generic dynamic-value decoding and extraction. Whatever the
    /// decoders returned, the result is the decision [`spec_decide`] makes
    /// on it.
    pub fn deserialize_from_message(&self, message: &zbus::Message) -> (r: Result<bool, String>)
        ensures
            exists|direct: Option<bool>, fallback: Option<DynValue>|
                match r {
                    Ok(b) => #[trigger] spec_decide(direct, fallback) == Ok::<bool, Seq<char>>(b),
                    Err(m) => spec_decide(direct, fallback) matches Err(t) && m@ == t,
                },
    {
        match self {
            TypeHandler::Boolean { .. } => {
                let body = crate::bus::message_body(message);
                let direct = crate::bus::read_bool(&body);
                let fallback = if direct.is_some() {
                    None
                } else {
                    crate::bus::read_dyn(&body)
                };
                let ghost gd = direct;
                let ghost gf = fallback;
                let r = self.decide_payload(direct, fallback);
                proof {
                    assert(match r {
                        Ok(b) => spec_decide(gd, gf) == Ok::<bool, Seq<char>>(b),
                        Err(m) => spec_decide(gd, gf) matches Err(t) && m@ == t,
                    });
                }
                r
            },
        }
    }
}

} // verus!
