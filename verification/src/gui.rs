//! The state of the graphical front-end: which configuration is loaded,
//! what the status line says, whether a launch run is under way, and the
//! text sitting in the configuration editor. The rendering itself, the
//! file dialogs and the file accesses belong to the embedding binary; every
//! decision they act on is made here.

use vstd::prelude::*;
use vstd::string::StringExecFns;
use crate::config::{
    Config, DEFAULT_CONFIG_CONTENT, get_default_config_content, is_default_config,
    load_default_config,
};
use crate::strings::{has_prefix, is_prefix_of};

verus! {

/// Colour scheme of the front-end.
#[derive(Clone, Copy, Debug, PartialEq, Eq, Structural)]
pub enum Theme {
    Light,
    Dark,
}

impl Default for Theme {
    /// The front-end starts dark.
    fn default() -> (r: Self)
        ensures
            r == Theme::Dark,
    {
        Theme::Dark
    }
}

/// The front-end's state.
#[derive(Debug)]
pub struct JumpstartGui {
    /// The path the configuration is read from and written to.
    pub config_path: String,
    /// The file the user picked, if any; with none, the built-in default
    /// configuration is in use.
    pub selected_config: Option<String>,
    /// The configuration a launch run would use, if one is loaded.
    pub config: Option<Config>,
    /// Whether a launch run is under way.
    pub is_running: bool,
    /// The status line shown to the user.
    pub status_message: String,
    /// Whether a background operation is still pending.
    pub operation_in_progress: bool,
    /// Whether the configuration editor is open.
    pub show_config_editor: bool,
    /// The text sitting in the configuration editor.
    pub editor_content: String,
    /// The colour scheme in use.
    pub theme: Theme,
}

impl JumpstartGui {
    /// Fresh front-end state: the built-in default configuration is loaded
    /// and announced, nothing is running, the editor holds the default
    /// configuration text, and the theme is dark.
    pub fn new() -> (g: JumpstartGui)
        ensures
            g.config_path@ == "config.yml"@,
            g.selected_config is None,
            g.config matches Some(c) && is_default_config(c),
            !g.is_running,
            g.status_message@
                == "Loaded default configuration. You can edit it or load another file."@,
            !g.operation_in_progress,
            !g.show_config_editor,
            g.editor_content@ == DEFAULT_CONFIG_CONTENT@,
            g.theme == Theme::Dark,
    {
        let mut g = JumpstartGui {
            config_path: "config.yml".to_owned(),
            selected_config: None,
            config: None,
            is_running: false,
            status_message:
                "Welcome to Jumpstart! 👋\nLoad a configuration or create a new one to get started.".to_owned(),
            operation_in_progress: false,
            show_config_editor: false,
            editor_content: get_default_config_content().to_owned(),
            theme: Theme::Dark,
        };
        match load_default_config() {
            Ok(default_config) => {
                g.config = Some(default_config);
                g.status_message =
                    "Loaded default configuration. You can edit it or load another file.".to_owned();
            },
            Err(_) => {},
        }
        g
    }

    /// Fresh front-end state pointed at a configuration file, given the
    /// outcome of loading that file: on success the loaded configuration
    /// replaces the default; on failure the default stays and the status
    /// line says what went wrong.
    pub fn with_initial_config(config_path: String, loaded: Result<Config, String>) -> (g:
        JumpstartGui)
        ensures
            g.config_path@ == config_path@,
            match loaded {
                Ok(c) => {
                    &&& g.config == Some(c)
                    &&& g.selected_config matches Some(p) && p@ == config_path@
                    &&& g.status_message@ == "✅ Loaded configuration from "@ + config_path@
                },
                Err(e) => {
                    &&& g.config matches Some(c) && is_default_config(c)
                    &&& g.selected_config is None
                    &&& g.status_message@ == "⚠️ Failed to load config '"@ + config_path@
                        + "': "@ + e@ + ". Using default configuration."@
                },
            },
            !g.is_running,
            !g.operation_in_progress,
            !g.show_config_editor,
            g.editor_content@ == DEFAULT_CONFIG_CONTENT@,
            g.theme == Theme::Dark,
    {
        let mut g = Self::new();
        g.config_path = config_path.clone();
        match loaded {
            Ok(config) => {
                g.config = Some(config);
                g.selected_config = Some(config_path.clone());
                let mut msg = "✅ Loaded configuration from ".to_owned();
                msg.append(config_path.as_str());
                g.status_message = msg;
            },
            Err(e) => {
                let mut msg = "⚠️ Failed to load config '".to_owned();
                msg.append(config_path.as_str());
                msg.append("': ");
                msg.append(e.as_str());
                msg.append(". Using default configuration.");
                g.status_message = msg;
            },
        }
        g
    }

    /// Takes note of a configuration file the user picked and of the
    /// outcome of loading it: the pick becomes the current path either
    /// way; a failed load clears the loaded configuration.
    pub fn apply_file_selection(&mut self, path: String, loaded: Result<Config, String>)
        ensures
            final(self).config_path@ == path@,
            final(self).selected_config matches Some(p) && p@ == path@,
            match loaded {
                Ok(c) => {
                    &&& final(self).config == Some(c)
                    &&& final(self).status_message@ == "✅ Loaded configuration from "@
                        + path@
                },
                Err(e) => {
                    &&& final(self).config is None
                    &&& final(self).status_message@ == "❌ Failed to load config: "@ + e@
                },
            },
            final(self).is_running == old(self).is_running,
            final(self).operation_in_progress == old(self).operation_in_progress,
            final(self).show_config_editor == old(self).show_config_editor,
            final(self).editor_content == old(self).editor_content,
            final(self).theme == old(self).theme,
    {
        self.selected_config = Some(path.clone());
        self.config_path = path.clone();
        match loaded {
            Ok(config) => {
                self.config = Some(config);
                let mut msg = "✅ Loaded configuration from ".to_owned();
                msg.append(path.as_str());
                self.status_message = msg;
            },
            Err(e) => {
                self.config = None;
                let mut msg = "❌ Failed to load config: ".to_owned();
                msg.append(e.as_str());
                self.status_message = msg;
            },
        }
    }

    /// Takes note of an attempt to save the editor's text to `path`, and
    /// of the reload that follows a successful write. Saving over no
    /// earlier pick makes `path` the current file. A failed write only
    /// reports; a failed reload keeps the configuration and reports.
    pub fn apply_save_result(
        &mut self,
        path: String,
        write_result: Result<(), String>,
        reload: Option<Result<Config, String>>,
    )
        requires
            write_result is Ok <==> reload is Some,
        ensures
            match write_result {
                Ok(_) => {
                    &&& if old(self).selected_config is None {
                        &&& final(self).selected_config matches Some(p) && p@ == path@
                        &&& final(self).config_path@ == path@
                    } else {
                        &&& final(self).selected_config == old(self).selected_config
                        &&& final(self).config_path == old(self).config_path
                    }
                    &&& match reload {
                        Some(Ok(c)) => {
                            &&& final(self).config == Some(c)
                            &&& final(self).status_message@ == (if old(
                                self,
                            ).selected_config is None {
                                "✅ Saved new configuration to "@ + path@
                            } else {
                                "✅ Saved configuration to "@ + path@
                            })
                        },
                        Some(Err(e)) => {
                            &&& final(self).config == old(self).config
                            &&& final(self).status_message@
                                == "⚠️ Saved but failed to reload: "@ + e@
                        },
                        None => false,
                    }
                },
                Err(e) => {
                    &&& final(self).config == old(self).config
                    &&& final(self).selected_config == old(self).selected_config
                    &&& final(self).config_path == old(self).config_path
                    &&& final(self).status_message@ == "❌ Failed to save config: "@ + e@
                },
            },
            final(self).is_running == old(self).is_running,
            final(self).operation_in_progress == old(self).operation_in_progress,
            final(self).show_config_editor == old(self).show_config_editor,
            final(self).editor_content == old(self).editor_content,
            final(self).theme == old(self).theme,
    {
        let was_new = self.selected_config.is_none();
        match write_result {
            Ok(_) => {
                if was_new {
                    self.selected_config = Some(path.clone());
                    self.config_path = path.clone();
                    let mut msg = "✅ Saved new configuration to ".to_owned();
                    msg.append(path.as_str());
                    self.status_message = msg;
                } else {
                    let mut msg = "✅ Saved configuration to ".to_owned();
                    msg.append(path.as_str());
                    self.status_message = msg;
                }
                match reload {
                    Some(Ok(config)) => {
                        self.config = Some(config);
                    },
                    Some(Err(e)) => {
                        let mut msg = "⚠️ Saved but failed to reload: ".to_owned();
                        msg.append(e.as_str());
                        self.status_message = msg;
                    },
                    None => {
                        proof {
                            assert(false);
                        }
                    },
                }
            },
            Err(e) => {
                let mut msg = "❌ Failed to save config: ".to_owned();
                msg.append(e.as_str());
                self.status_message = msg;
            },
        }
    }

    /// Puts the default configuration text back into the editor.
    pub fn load_default_config_content(&mut self)
        ensures
            final(self).editor_content@ == DEFAULT_CONFIG_CONTENT@,
            final(self).status_message@ == "Loaded default configuration template"@,
            final(self).config_path == old(self).config_path,
            final(self).selected_config == old(self).selected_config,
            final(self).config == old(self).config,
            final(self).is_running == old(self).is_running,
            final(self).operation_in_progress == old(self).operation_in_progress,
            final(self).show_config_editor == old(self).show_config_editor,
            final(self).theme == old(self).theme,
    {
        self.editor_content = get_default_config_content().to_owned();
        self.status_message = "Loaded default configuration template".to_owned();
    }

    /// Clears a stale running flag: a run marked as under way with no
    /// operation pending is over, and a status line still announcing the
    /// start is replaced with a completion note.
    pub fn update_status(&mut self)
        ensures
            if old(self).is_running && !old(self).operation_in_progress {
                &&& !final(self).is_running
                &&& final(self).status_message@ == (if is_prefix_of(
                    "🚀 Starting"@,
                    old(self).status_message@,
                ) {
                    "✅ Application launching completed. Check logs for details."@
                } else {
                    old(self).status_message@
                })
                &&& final(self).config_path == old(self).config_path
                &&& final(self).selected_config == old(self).selected_config
                &&& final(self).config == old(self).config
                &&& final(self).operation_in_progress == old(self).operation_in_progress
                &&& final(self).show_config_editor == old(self).show_config_editor
                &&& final(self).editor_content == old(self).editor_content
                &&& final(self).theme == old(self).theme
            } else {
                *final(self) == *old(self)
            },
    {
        if self.is_running && !self.operation_in_progress {
            self.is_running = false;
            if has_prefix(self.status_message.as_str(), "🚀 Starting") {
                self.status_message =
                    "✅ Application launching completed. Check logs for details.".to_owned();
            }
        }
    }

    /// The checks made before a launch run: with no configuration loaded,
    /// or with a run already under way, nothing starts and the status line
    /// says why; otherwise the run is marked as started. Returns whether
    /// the caller should now run the launch pipeline.
    pub fn begin_launch(&mut self) -> (proceed: bool)
        ensures
            proceed == (old(self).config is Some && !old(self).is_running),
            if old(self).config is None {
                &&& final(self).is_running == old(self).is_running
                &&& final(self).status_message@
                    == "❌ No configuration loaded. Please select a config file first."@
            } else if old(self).is_running {
                &&& final(self).is_running == old(self).is_running
                &&& final(self).status_message@
                    == "⏳ Applications are already being launched."@
            } else {
                &&& final(self).is_running
                &&& final(self).status_message@ == "🚀 Starting applications..."@
            },
            final(self).config_path == old(self).config_path,
            final(self).selected_config == old(self).selected_config,
            final(self).config == old(self).config,
            final(self).operation_in_progress == old(self).operation_in_progress,
            final(self).show_config_editor == old(self).show_config_editor,
            final(self).editor_content == old(self).editor_content,
            final(self).theme == old(self).theme,
    {
        if self.config.is_none() {
            self.status_message =
                "❌ No configuration loaded. Please select a config file first.".to_owned();
            return false;
        }
        if self.is_running {
            self.status_message = "⏳ Applications are already being launched.".to_owned();
            return false;
        }
        self.is_running = true;
        self.status_message = "🚀 Starting applications...".to_owned();
        true
    }

    /// Takes note of how a launch run ended: the running flag clears and
    /// the status line reports success or the error.
    pub fn finish_launch(&mut self, result: Result<(), String>)
        ensures
            !final(self).is_running,
            match result {
                Ok(_) => final(self).status_message@
                    == "✅ Applications launched successfully!"@,
                Err(e) => final(self).status_message@ == "❌ Error launching applications: "@
                    + e@,
            },
            final(self).config_path == old(self).config_path,
            final(self).selected_config == old(self).selected_config,
            final(self).config == old(self).config,
            final(self).operation_in_progress == old(self).operation_in_progress,
            final(self).show_config_editor == old(self).show_config_editor,
            final(self).editor_content == old(self).editor_content,
            final(self).theme == old(self).theme,
    {
        match result {
            Ok(_) => {
                self.status_message = "✅ Applications launched successfully!".to_owned();
            },
            Err(e) => {
                let mut msg = "❌ Error launching applications: ".to_owned();
                msg.append(e.as_str());
                self.status_message = msg;
            },
        }
        self.is_running = false;
    }
}

} // verus!
