//! Creating a session: which flavor of session may be created beside the
//! one that initialized the tracing engine, and the configuration that the
//! engine is initialized with.

use crate::error::BridgeError;
use crate::session::DepData;
use vstd::prelude::*;

verus! {

/// The flavor of a session. It selects the engine's configuration.
#[derive(Clone, Copy, Debug, PartialEq, Eq, Structural)]
pub enum DepDataType {
    /// Readable output, sent to a debugging front end.
    Debug,
    /// Structured output, handed back through the return channel.
    Trace,
}

impl DepDataType {
    /// The number of the flavor: 1 for `Debug`, 2 for `Trace`.
    pub open spec fn spec_code(self) -> u8 {
        match self {
            DepDataType::Debug => 1,
            DepDataType::Trace => 2,
        }
    }

    /// The number of the flavor: 1 for `Debug`, 2 for `Trace`.
    pub fn code(self) -> (code: u8)
        ensures
            code == self.spec_code(),
    {
        match self {
            DepDataType::Debug => 1,
            DepDataType::Trace => 2,
        }
    }

    /// The flavor with the given number, if there is one.
    pub fn from_code(code: u8) -> (flavor: Option<DepDataType>)
        ensures
            match flavor {
                Some(f) => f.spec_code() == code,
                None => code != 1 && code != 2,
            },
    {
        if code == 1 {
            Some(DepDataType::Debug)
        } else if code == 2 {
            Some(DepDataType::Trace)
        } else {
            None
        }
    }
}

/// How the engine writes its output.
#[derive(Clone, Copy, Debug, PartialEq, Eq, Structural)]
pub enum OutputFormat {
    Text,
    Json,
}

/// The on-off settings of the engine's logger.
#[derive(Clone, Copy, Debug, PartialEq, Eq, Structural)]
pub struct LoggerToggles {
    pub final_slots_short: bool,
    pub final_slots: bool,
    pub codes_short: bool,
    pub codes: bool,
    pub return_data_short: bool,
    pub return_data: bool,
    pub logs_short: bool,
    pub logs: bool,
    pub sol_view: bool,
    pub minimal_info: bool,
    pub omit_info: bool,
    pub omit_formulas: bool,
}

/// The engine's logger: which instructions it leaves out, what else it
/// writes, and in which format.
#[derive(Clone, Debug, PartialEq, Eq)]
pub struct LoggerConfig {
    /// Instructions to shorten, by the two hexadecimal digits of their byte.
    pub opcodes_short: Vec<String>,
    /// Instructions to leave out altogether.
    pub opcodes: Vec<String>,
    pub toggles: LoggerToggles,
    pub output_format: OutputFormat,
}

/// Where the engine keeps its state.
#[derive(Clone, Debug, PartialEq, Eq)]
pub struct StorageBackend {
    pub engine: String,
    pub root: String,
}

/// The document that the engine is initialized with.
#[derive(Clone, Debug, PartialEq, Eq)]
pub struct EngineConfig {
    pub storage_backend: StorageBackend,
    pub logger: LoggerConfig,
    /// Where the output goes; empty for none.
    pub output: String,
    /// Whether state from before the activation may be referred to.
    pub past_unknown: bool,
}

/// An `EngineConfig` with its texts as sequences of characters.
pub struct EngineConfigView {
    pub engine: Seq<char>,
    pub root: Seq<char>,
    pub opcodes_short: Seq<Seq<char>>,
    pub opcodes: Seq<Seq<char>>,
    pub toggles: LoggerToggles,
    pub output_format: OutputFormat,
    pub output: Seq<char>,
    pub past_unknown: bool,
}

impl View for EngineConfig {
    type V = EngineConfigView;

    open spec fn view(&self) -> EngineConfigView {
        EngineConfigView {
            engine: self.storage_backend.engine@,
            root: self.storage_backend.root@,
            opcodes_short: self.logger.opcodes_short.deep_view(),
            opcodes: self.logger.opcodes.deep_view(),
            toggles: self.logger.toggles,
            output_format: self.logger.output_format,
            output: self.output@,
            past_unknown: self.past_unknown,
        }
    }
}

/// The configuration of each flavor. Both keep their state in memory only,
/// shorten the four instructions `e0` to `e3`, and accept state from before
/// the activation. `Debug` writes short final slots and minimal information
/// as text to a local front end; `Trace` leaves information and formulas
/// out and writes JSON to no destination.
pub open spec fn spec_engine_config(flavor: DepDataType) -> EngineConfigView {
    let debug = flavor == DepDataType::Debug;
    EngineConfigView {
        engine: "amnesia"@,
        root: ""@,
        opcodes_short: seq!["e0"@, "e1"@, "e2"@, "e3"@],
        opcodes: Seq::empty(),
        toggles: LoggerToggles {
            final_slots_short: debug,
            final_slots: false,
            codes_short: false,
            codes: false,
            return_data_short: false,
            return_data: false,
            logs_short: false,
            logs: false,
            sol_view: true,
            minimal_info: debug,
            omit_info: !debug,
            omit_formulas: !debug,
        },
        output_format: if debug {
            OutputFormat::Text
        } else {
            OutputFormat::Json
        },
        output: if debug {
            "http://0.0.0.0:4334"@
        } else {
            ""@
        },
        past_unknown: true,
    }
}

/// Builds the configuration of a flavor.
pub fn engine_config(flavor: DepDataType) -> (config: EngineConfig)
    ensures
        config@ == spec_engine_config(flavor),
{
    let debug = match flavor {
        DepDataType::Debug => true,
        DepDataType::Trace => false,
    };
    let mut opcodes_short: Vec<String> = Vec::new();
    opcodes_short.push("e0".to_owned());
    opcodes_short.push("e1".to_owned());
    opcodes_short.push("e2".to_owned());
    opcodes_short.push("e3".to_owned());
    let opcodes: Vec<String> = Vec::new();
    let output = if debug {
        "http://0.0.0.0:4334".to_owned()
    } else {
        "".to_owned()
    };
    let config = EngineConfig {
        storage_backend: StorageBackend { engine: "amnesia".to_owned(), root: "".to_owned() },
        logger: LoggerConfig {
            opcodes_short,
            opcodes,
            toggles: LoggerToggles {
                final_slots_short: debug,
                final_slots: false,
                codes_short: false,
                codes: false,
                return_data_short: false,
                return_data: false,
                logs_short: false,
                logs: false,
                sol_view: true,
                minimal_info: debug,
                omit_info: !debug,
                omit_formulas: !debug,
            },
            output_format: if debug {
                OutputFormat::Text
            } else {
                OutputFormat::Json
            },
        },
        output,
        past_unknown: true,
    };
    assert(config@.opcodes_short =~= seq!["e0"@, "e1"@, "e2"@, "e3"@]);
    assert(config@.opcodes =~= Seq::<Seq<char>>::empty());
    config
}

/// The flavor of the session that initialized the tracing engine, if the
/// engine has been initialized. There is one such record per process.
#[derive(Clone, Copy, Debug, PartialEq, Eq, Structural)]
pub struct Installation {
    pub flavor: Option<DepDataType>,
}

/// How the engine is to be initialized for a new session.
#[derive(Clone, Debug, PartialEq, Eq)]
pub struct InitRequest {
    pub config: EngineConfig,
    /// Whether the engine is given the callback of the return channel.
    pub with_callback: bool,
}

/// The outcome of creating a session of a flavor beside what is installed.
/// The first session initializes the engine and is activated. After a
/// `Debug` session a `Trace` session may be created: it does not initialize
/// the engine again and is not activated. Every other second creation is a
/// mismatch. The flag says whether the engine is to be initialized.
pub open spec fn spec_created(installed: Option<DepDataType>, flavor: DepDataType) -> Result<
    (DepData, bool),
    BridgeError,
> {
    match installed {
        None => Ok((DepData { call_depth: 0, activated: true }, true)),
        Some(first) => if first == DepDataType::Debug && flavor == DepDataType::Trace {
            Ok((DepData { call_depth: 0, activated: false }, false))
        } else {
            Err(BridgeError::FlavorMismatch)
        },
    }
}

/// What is installed after a creation: the flavor of the first session.
pub open spec fn spec_installed_after(installed: Option<DepDataType>, flavor: DepDataType)
    -> Option<DepDataType> {
    match installed {
        None => Some(flavor),
        Some(first) => Some(first),
    }
}

impl DepData {
    /// Creates a session of the given flavor, as `spec_created` says. With
    /// the session comes the request to initialize the engine, where the
    /// engine is to be initialized: with the flavor's configuration, and for
    /// `Trace` with the callback of the return channel.
    pub fn new(installed: &mut Installation, flavor: DepDataType) -> (r: Result<
        (DepData, Option<InitRequest>),
        BridgeError,
    >)
        ensures
            final(installed).flavor == spec_installed_after(old(installed).flavor, flavor),
            match r {
                Ok((data, init)) => {
                    &&& spec_created(old(installed).flavor, flavor) == Ok::<
                        (DepData, bool),
                        BridgeError,
                    >((data, init is Some))
                    &&& init matches Some(request) ==> {
                        &&& request.config@ == spec_engine_config(flavor)
                        &&& request.with_callback == (flavor == DepDataType::Trace)
                    }
                },
                Err(e) => spec_created(old(installed).flavor, flavor) == Err::<
                    (DepData, bool),
                    BridgeError,
                >(e),
            },
    {
        match installed.flavor {
            Some(first) => {
                if first == DepDataType::Debug && flavor == DepDataType::Trace {
                    Ok((DepData { call_depth: 0, activated: false }, None))
                } else {
                    Err(BridgeError::FlavorMismatch)
                }
            },
            None => {
                installed.flavor = Some(flavor);
                let request = InitRequest {
                    config: engine_config(flavor),
                    with_callback: flavor == DepDataType::Trace,
                };
                Ok((DepData { call_depth: 0, activated: true }, Some(request)))
            },
        }
    }
}

} // verus!
