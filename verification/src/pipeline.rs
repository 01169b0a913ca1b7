//! The orchestrator of the conversion pipeline, as a state machine. The
//! machine holds the stage of the run and the loaded configuration; the
//! driver performs one outside action at a time (a probe, a read, a write, a
//! call into a collaborator) and hands the outcome back as an event. Every
//! transition is pinned by the relation [`next_rel`]: stages run strictly
//! forward, the first failure reports and stops, and exactly one delivery
//! mode takes effect per run.

use crate::config::decode_mode;
use crate::config::Configuration;
use crate::config::DeliveryMode;
use crate::config::DEFAULT_CONFIG_TEXT;
use crate::errors::GeneralError;
use crate::text::join_path;
use crate::text::join_spec;
use crate::text::normalize_config_bytes;
use crate::text::normalize_spec;
use vstd::pervasive::unreached;
use vstd::prelude::*;

verus! {

/// The fixed target protocol number handed to the external converter.
pub const TARGET_MAJOR: u8 = 1;

/// The fixed target version number handed to the external converter.
pub const TARGET_MINOR: u8 = 1;

/// The stage a run is in: what outcome the machine is waiting for next.
/// `Done` and `Failed` are terminal; no event is expected there.
#[derive(Debug, Clone, Copy, PartialEq, Eq, Structural)]
pub enum Stage {
    /// Waiting to learn whether a configuration file exists.
    ConfigProbe,
    /// Waiting for the default configuration file to be written.
    ConfigWrite,
    /// Waiting for the configuration text to be read.
    ConfigRead,
    /// Waiting for the normalized configuration text to be parsed.
    ConfigParse,
    /// Waiting to learn whether the input folder exists.
    InputDirProbe,
    /// Waiting for the input folder to be created.
    InputDirCreate,
    /// Waiting to learn whether the output folder exists.
    OutputDirProbe,
    /// Waiting for the output folder to be created.
    OutputDirCreate,
    /// Waiting to learn whether the resolved input file exists.
    InputCheck,
    /// Waiting for the external decoder to load the save file.
    LevelLoad,
    /// Waiting for the external converter to map the decoded world.
    Convert,
    /// Waiting for the external serializer to encode the target model.
    Serialize,
    /// Waiting for the delivery side effect to complete.
    Deliver,
    /// The run completed; the driver acknowledges and exits with status 0.
    Done,
    /// The run failed; the driver reports and exits with status 1.
    Failed,
}

/// The outcome of one outside action, handed back to the machine. Error
/// payloads carry the underlying cause rendered as one line of text.
#[derive(Debug, PartialEq)]
pub enum Event {
    /// Whether the configuration file exists.
    ConfigProbed(bool),
    /// Outcome of writing the default configuration file.
    ConfigWritten(Result<(), String>),
    /// The raw bytes of the configuration file.
    ConfigLoaded(Vec<u8>),
    /// Outcome of parsing the normalized configuration text.
    ConfigParsed(Result<Configuration, String>),
    /// Whether the input folder exists.
    InputDirProbed(bool),
    /// Outcome of creating the input folder.
    InputDirCreated(Result<(), String>),
    /// Whether the output folder exists.
    OutputDirProbed(bool),
    /// Outcome of creating the output folder.
    OutputDirCreated(Result<(), String>),
    /// Whether the resolved input file exists.
    InputProbed(bool),
    /// Outcome of decoding the save file; the driver keeps the world object.
    LevelLoaded(Result<(), String>),
    /// Outcome of conversion; the driver keeps the target model.
    Converted(Result<(), String>),
    /// The two string artifacts the serializer produced from the target
    /// model: the data payload and the settings payload, in that order.
    Serialized(String, String),
    /// Outcome of persisting both artifacts into the storage file.
    StorageWritten(Result<(), String>),
    /// Outcome of emitting the script file.
    ScriptWritten(Result<(), String>),
}

/// The one outside action the driver must perform next.
#[derive(Debug, PartialEq)]
pub enum Action {
    /// Check whether the configuration file exists.
    ProbeConfig,
    /// Create the configuration file with this exact payload; never overwrite.
    WriteConfig(String),
    /// Read the configuration file.
    ReadConfig,
    /// Parse this normalized configuration text.
    ParseConfig(Vec<u8>),
    /// Check whether this folder exists.
    ProbeInputDir(String),
    /// Create this folder.
    CreateInputDir(String),
    /// Check whether this folder exists.
    ProbeOutputDir(String),
    /// Create this folder.
    CreateOutputDir(String),
    /// Check whether the file at this resolved path exists.
    ProbeInput(String),
    /// Decode the save file at this path.
    LoadLevel(String),
    /// Convert the decoded world for this target protocol/version pair.
    ConvertLevel(u8, u8),
    /// Encode the converted target model into its two string artifacts.
    SerializeLevel,
    /// Persist both artifacts into the storage file under `folder`, grouped
    /// by the `website` origin string.
    WriteStorage { folder: String, website: String, payload: String, metadata: String },
    /// Emit the script file at `path` injecting both artifacts.
    WriteScript { path: String, payload: String, metadata: String },
    /// Print this diagnostic, wait for acknowledgment, exit with status 1.
    Report(GeneralError),
    /// Print the final prompt, wait for acknowledgment, exit with status 0.
    Finish,
}

/// The stages that can only be reached with a loaded configuration.
pub open spec fn needs_config(s: Stage) -> bool {
    match s {
        Stage::InputDirProbe => true,
        Stage::InputDirCreate => true,
        Stage::OutputDirProbe => true,
        Stage::OutputDirCreate => true,
        Stage::InputCheck => true,
        Stage::LevelLoad => true,
        Stage::Convert => true,
        Stage::Serialize => true,
        Stage::Deliver => true,
        _ => false,
    }
}

/// Whether a stage is terminal: the run is over and no event is expected.
pub open spec fn terminal(s: Stage) -> bool {
    s == Stage::Done || s == Stage::Failed
}

/// How far along the run a stage is. Every transition strictly increases
/// this rank, so no stage is ever revisited and every run ends.
pub open spec fn rank(s: Stage) -> nat {
    match s {
        Stage::ConfigProbe => 0,
        Stage::ConfigWrite => 1,
        Stage::ConfigRead => 2,
        Stage::ConfigParse => 3,
        Stage::InputDirProbe => 4,
        Stage::InputDirCreate => 5,
        Stage::OutputDirProbe => 6,
        Stage::OutputDirCreate => 7,
        Stage::InputCheck => 8,
        Stage::LevelLoad => 9,
        Stage::Convert => 10,
        Stage::Serialize => 11,
        Stage::Deliver => 12,
        Stage::Done => 13,
        Stage::Failed => 13,
    }
}

/// The state of one run: the stage, and the configuration once loaded.
pub struct Pipeline {
    pub stage: Stage,
    pub config: Option<Configuration>,
}

impl Pipeline {
    /// Well-formedness: past parsing, the configuration is present.
    pub open spec fn wf(self) -> bool {
        needs_config(self.stage) ==> self.config is Some
    }

    /// The loaded configuration (meaningful once `needs_config` holds).
    pub open spec fn spec_config(self) -> Configuration {
        self.config->Some_0
    }

    /// Which events the current stage can accept: exactly the outcome of the
    /// action this stage is waiting for. In the delivery stage the expected
    /// outcome depends on the mode the run dispatched on.
    pub open spec fn expects(self, event: Event) -> bool {
        match (self.stage, event) {
            (Stage::ConfigProbe, Event::ConfigProbed(_)) => true,
            (Stage::ConfigWrite, Event::ConfigWritten(_)) => true,
            (Stage::ConfigRead, Event::ConfigLoaded(_)) => true,
            (Stage::ConfigParse, Event::ConfigParsed(_)) => true,
            (Stage::InputDirProbe, Event::InputDirProbed(_)) => true,
            (Stage::InputDirCreate, Event::InputDirCreated(_)) => true,
            (Stage::OutputDirProbe, Event::OutputDirProbed(_)) => true,
            (Stage::OutputDirCreate, Event::OutputDirCreated(_)) => true,
            (Stage::InputCheck, Event::InputProbed(_)) => true,
            (Stage::LevelLoad, Event::LevelLoaded(_)) => true,
            (Stage::Convert, Event::Converted(_)) => true,
            (Stage::Serialize, Event::Serialized(_, _)) => true,
            (Stage::Deliver, Event::StorageWritten(_)) => self.spec_config().output_settings.output_mode
                == 0,
            (Stage::Deliver, Event::ScriptWritten(_)) => self.spec_config().output_settings.output_mode
                == 1,
            _ => false,
        }
    }
}

/// The transition relation of the orchestrator: from the state `pre` and the
/// event, exactly which state `post` and action `a` the machine produces.
/// A delivery action carries exactly the two artifact strings the serializer
/// handed back, unmodified and together.
pub open spec fn next_rel(pre: Pipeline, event: Event, post: Pipeline, a: Action) -> bool {
    match (pre.stage, event) {
        (Stage::ConfigProbe, Event::ConfigProbed(found)) => {
            if found {
                &&& post.stage == Stage::ConfigRead
                &&& post.config == pre.config
                &&& a == Action::ReadConfig
            } else {
                &&& post.stage == Stage::ConfigWrite
                &&& post.config == pre.config
                &&& (a matches Action::WriteConfig(t) && t@ == DEFAULT_CONFIG_TEXT@)
            }
        },
        (Stage::ConfigWrite, Event::ConfigWritten(r)) => {
            match r {
                Ok(_) => {
                    &&& post.stage == Stage::ConfigRead
                    &&& post.config == pre.config
                    &&& a == Action::ReadConfig
                },
                Err(d) => {
                    &&& post.stage == Stage::Failed
                    &&& post.config == pre.config
                    &&& a == Action::Report(GeneralError::FileError(d))
                },
            }
        },
        (Stage::ConfigRead, Event::ConfigLoaded(bytes)) => {
            &&& post.stage == Stage::ConfigParse
            &&& post.config == pre.config
            &&& (a matches Action::ParseConfig(b) && b@ == normalize_spec(bytes@))
        },
        (Stage::ConfigParse, Event::ConfigParsed(r)) => {
            match r {
                Ok(c) => {
                    &&& post.stage == Stage::InputDirProbe
                    &&& post.config == Some(c)
                    &&& a == Action::ProbeInputDir(c.input_settings.input_folder)
                },
                Err(d) => {
                    &&& post.stage == Stage::Failed
                    &&& post.config == pre.config
                    &&& a == Action::Report(GeneralError::TOMLError(d))
                },
            }
        },
        (Stage::InputDirProbe, Event::InputDirProbed(found)) => {
            if found {
                &&& post.stage == Stage::OutputDirProbe
                &&& post.config == pre.config
                &&& a == Action::ProbeOutputDir(
                    pre.spec_config().output_settings.output_folder,
                )
            } else {
                &&& post.stage == Stage::InputDirCreate
                &&& post.config == pre.config
                &&& a == Action::CreateInputDir(pre.spec_config().input_settings.input_folder)
            }
        },
        (Stage::InputDirCreate, Event::InputDirCreated(r)) => {
            match r {
                Ok(_) => {
                    &&& post.stage == Stage::OutputDirProbe
                    &&& post.config == pre.config
                    &&& a == Action::ProbeOutputDir(
                        pre.spec_config().output_settings.output_folder,
                    )
                },
                Err(d) => {
                    &&& post.stage == Stage::Failed
                    &&& post.config == pre.config
                    &&& a == Action::Report(GeneralError::FileError(d))
                },
            }
        },
        (Stage::OutputDirProbe, Event::OutputDirProbed(found)) => {
            if found {
                &&& post.stage == Stage::InputCheck
                &&& post.config == pre.config
                &&& (a matches Action::ProbeInput(p) && p@ == spec_input_path(pre.spec_config()))
            } else {
                &&& post.stage == Stage::OutputDirCreate
                &&& post.config == pre.config
                &&& a == Action::CreateOutputDir(
                    pre.spec_config().output_settings.output_folder,
                )
            }
        },
        (Stage::OutputDirCreate, Event::OutputDirCreated(r)) => {
            match r {
                Ok(_) => {
                    &&& post.stage == Stage::InputCheck
                    &&& post.config == pre.config
                    &&& (a matches Action::ProbeInput(p) && p@ == spec_input_path(
                        pre.spec_config(),
                    ))
                },
                Err(d) => {
                    &&& post.stage == Stage::Failed
                    &&& post.config == pre.config
                    &&& a == Action::Report(GeneralError::FileError(d))
                },
            }
        },
        (Stage::InputCheck, Event::InputProbed(found)) => {
            if found {
                &&& post.stage == Stage::LevelLoad
                &&& post.config == pre.config
                &&& (a matches Action::LoadLevel(p) && p@ == spec_input_path(pre.spec_config()))
            } else {
                &&& post.stage == Stage::Failed
                &&& post.config == pre.config
                &&& (a matches Action::Report(e) && e matches GeneralError::MissingFile(p) && p@
                    == spec_input_path(pre.spec_config()))
            }
        },
        (Stage::LevelLoad, Event::LevelLoaded(r)) => {
            match r {
                Ok(_) => {
                    &&& post.stage == Stage::Convert
                    &&& post.config == pre.config
                    &&& a == Action::ConvertLevel(TARGET_MAJOR, TARGET_MINOR)
                },
                Err(d) => {
                    &&& post.stage == Stage::Failed
                    &&& post.config == pre.config
                    &&& a == Action::Report(GeneralError::ClassicError(d))
                },
            }
        },
        (Stage::Convert, Event::Converted(r)) => {
            match r {
                Ok(_) => {
                    &&& post.stage == Stage::Serialize
                    &&& post.config == pre.config
                    &&& a == Action::SerializeLevel
                },
                Err(d) => {
                    &&& post.stage == Stage::Failed
                    &&& post.config == pre.config
                    &&& a == Action::Report(GeneralError::ConversionError(d))
                },
            }
        },
        (Stage::Serialize, Event::Serialized(payload, metadata)) => {
            let mode = pre.spec_config().output_settings.output_mode;
            if mode == 0 {
                &&& post.stage == Stage::Deliver
                &&& post.config == pre.config
                &&& a == (Action::WriteStorage {
                    folder: pre.spec_config().output_settings.output_folder,
                    website: pre.spec_config().output_settings.output_website,
                    payload,
                    metadata,
                })
            } else if mode == 1 {
                &&& post.stage == Stage::Deliver
                &&& post.config == pre.config
                &&& (a matches Action::WriteScript { path, payload: p, metadata: m } && path@
                    == spec_script_path(pre.spec_config()) && p == payload && m == metadata)
            } else {
                &&& post.stage == Stage::Failed
                &&& post.config == pre.config
                &&& a == Action::Report(GeneralError::InvalidMode(mode))
            }
        },
        (Stage::Deliver, Event::StorageWritten(r)) => {
            match r {
                Ok(_) => {
                    &&& post.stage == Stage::Done
                    &&& post.config == pre.config
                    &&& a == Action::Finish
                },
                Err(d) => {
                    &&& post.stage == Stage::Failed
                    &&& post.config == pre.config
                    &&& a == Action::Report(GeneralError::WriteError(d))
                },
            }
        },
        (Stage::Deliver, Event::ScriptWritten(r)) => {
            match r {
                Ok(_) => {
                    &&& post.stage == Stage::Done
                    &&& post.config == pre.config
                    &&& a == Action::Finish
                },
                Err(d) => {
                    &&& post.stage == Stage::Failed
                    &&& post.config == pre.config
                    &&& a == Action::Report(GeneralError::FileError(d))
                },
            }
        },
        _ => false,
    }
}

/// The resolved path of the input save file under a configuration.
pub open spec fn spec_input_path(c: Configuration) -> Seq<char> {
    join_spec(c.input_settings.input_folder@, c.input_settings.input_file@)
}

/// The path of the script file emitted in script mode.
pub open spec fn spec_script_path(c: Configuration) -> Seq<char> {
    join_spec(c.output_settings.output_folder@, c.output_settings.output_file@)
}

impl Pipeline {
    /// A fresh run: no configuration yet, waiting for the configuration
    /// probe that `initial_action` names.
    pub fn new() -> (p: Pipeline)
        ensures
            p.stage == Stage::ConfigProbe,
            p.config is None,
            p.wf(),
    {
        Pipeline { stage: Stage::ConfigProbe, config: None }
    }

    /// The first outside action of every run: check for the configuration
    /// file.
    pub fn initial_action() -> (a: Action)
        ensures
            a == Action::ProbeConfig,
    {
        Action::ProbeConfig
    }

    /// One transition of the orchestrator: consume the outcome of the last
    /// action and name the next one. The pair of new state and action is
    /// exactly the one `next_rel` admits.
    pub fn step(&mut self, event: Event) -> (a: Action)
        requires
            old(self).wf(),
            !terminal(old(self).stage),
            old(self).expects(event),
        ensures
            final(self).wf(),
            next_rel(*old(self), event, *final(self), a),
    {
        match (self.stage, event) {
            (Stage::ConfigProbe, Event::ConfigProbed(found)) => {
                if found {
                    self.stage = Stage::ConfigRead;
                    Action::ReadConfig
                } else {
                    self.stage = Stage::ConfigWrite;
                    Action::WriteConfig(crate::config::default_config_text())
                }
            },
            (Stage::ConfigWrite, Event::ConfigWritten(r)) => {
                match r {
                    Ok(_) => {
                        self.stage = Stage::ConfigRead;
                        Action::ReadConfig
                    },
                    Err(d) => {
                        self.stage = Stage::Failed;
                        Action::Report(GeneralError::FileError(d))
                    },
                }
            },
            (Stage::ConfigRead, Event::ConfigLoaded(bytes)) => {
                let normalized = normalize_config_bytes(&bytes);
                self.stage = Stage::ConfigParse;
                Action::ParseConfig(normalized)
            },
            (Stage::ConfigParse, Event::ConfigParsed(r)) => {
                match r {
                    Ok(c) => {
                        let folder = c.input_settings.input_folder.clone();
                        self.config = Some(c);
                        self.stage = Stage::InputDirProbe;
                        Action::ProbeInputDir(folder)
                    },
                    Err(d) => {
                        self.stage = Stage::Failed;
                        Action::Report(GeneralError::TOMLError(d))
                    },
                }
            },
            (Stage::InputDirProbe, Event::InputDirProbed(found)) => {
                let c = self.config.as_ref().unwrap();
                if found {
                    let folder = c.output_settings.output_folder.clone();
                    self.stage = Stage::OutputDirProbe;
                    Action::ProbeOutputDir(folder)
                } else {
                    let folder = c.input_settings.input_folder.clone();
                    self.stage = Stage::InputDirCreate;
                    Action::CreateInputDir(folder)
                }
            },
            (Stage::InputDirCreate, Event::InputDirCreated(r)) => {
                match r {
                    Ok(_) => {
                        let c = self.config.as_ref().unwrap();
                        let folder = c.output_settings.output_folder.clone();
                        self.stage = Stage::OutputDirProbe;
                        Action::ProbeOutputDir(folder)
                    },
                    Err(d) => {
                        self.stage = Stage::Failed;
                        Action::Report(GeneralError::FileError(d))
                    },
                }
            },
            (Stage::OutputDirProbe, Event::OutputDirProbed(found)) => {
                let c = self.config.as_ref().unwrap();
                if found {
                    let path = join_path(
                        &c.input_settings.input_folder,
                        &c.input_settings.input_file,
                    );
                    self.stage = Stage::InputCheck;
                    Action::ProbeInput(path)
                } else {
                    let folder = c.output_settings.output_folder.clone();
                    self.stage = Stage::OutputDirCreate;
                    Action::CreateOutputDir(folder)
                }
            },
            (Stage::OutputDirCreate, Event::OutputDirCreated(r)) => {
                match r {
                    Ok(_) => {
                        let c = self.config.as_ref().unwrap();
                        let path = join_path(
                            &c.input_settings.input_folder,
                            &c.input_settings.input_file,
                        );
                        self.stage = Stage::InputCheck;
                        Action::ProbeInput(path)
                    },
                    Err(d) => {
                        self.stage = Stage::Failed;
                        Action::Report(GeneralError::FileError(d))
                    },
                }
            },
            (Stage::InputCheck, Event::InputProbed(found)) => {
                let c = self.config.as_ref().unwrap();
                let path = join_path(&c.input_settings.input_folder, &c.input_settings.input_file);
                if found {
                    self.stage = Stage::LevelLoad;
                    Action::LoadLevel(path)
                } else {
                    self.stage = Stage::Failed;
                    Action::Report(GeneralError::MissingFile(path))
                }
            },
            (Stage::LevelLoad, Event::LevelLoaded(r)) => {
                match r {
                    Ok(_) => {
                        self.stage = Stage::Convert;
                        Action::ConvertLevel(TARGET_MAJOR, TARGET_MINOR)
                    },
                    Err(d) => {
                        self.stage = Stage::Failed;
                        Action::Report(GeneralError::ClassicError(d))
                    },
                }
            },
            (Stage::Convert, Event::Converted(r)) => {
                match r {
                    Ok(_) => {
                        self.stage = Stage::Serialize;
                        Action::SerializeLevel
                    },
                    Err(d) => {
                        self.stage = Stage::Failed;
                        Action::Report(GeneralError::ConversionError(d))
                    },
                }
            },
            (Stage::Serialize, Event::Serialized(payload, metadata)) => {
                let c = self.config.as_ref().unwrap();
                match decode_mode(c.output_settings.output_mode) {
                    Ok(DeliveryMode::Direct) => {
                        let folder = c.output_settings.output_folder.clone();
                        let website = c.output_settings.output_website.clone();
                        self.stage = Stage::Deliver;
                        Action::WriteStorage { folder, website, payload, metadata }
                    },
                    Ok(DeliveryMode::Script) => {
                        let path = join_path(
                            &c.output_settings.output_folder,
                            &c.output_settings.output_file,
                        );
                        self.stage = Stage::Deliver;
                        Action::WriteScript { path, payload, metadata }
                    },
                    Err(e) => {
                        self.stage = Stage::Failed;
                        Action::Report(e)
                    },
                }
            },
            (Stage::Deliver, Event::StorageWritten(r)) => {
                match r {
                    Ok(_) => {
                        self.stage = Stage::Done;
                        Action::Finish
                    },
                    Err(d) => {
                        self.stage = Stage::Failed;
                        Action::Report(GeneralError::WriteError(d))
                    },
                }
            },
            (Stage::Deliver, Event::ScriptWritten(r)) => {
                match r {
                    Ok(_) => {
                        self.stage = Stage::Done;
                        Action::Finish
                    },
                    Err(d) => {
                        self.stage = Stage::Failed;
                        Action::Report(GeneralError::FileError(d))
                    },
                }
            },
            _ => { unreached() },
        }
    }
}

} // verus!
