//! The `[Service]` section of a Quadlet file: when systemd restarts the service.

use vstd::prelude::*;

use crate::quadlet_lines::{fields_give, opt_line, push_option, section_text};
use crate::container_text::text_line;
use crate::quadlet_ser::header;
use crate::value::Field;

verus! {

/// When systemd restarts the service (`Restart=`).
#[derive(Debug, Clone, Copy, PartialEq, Eq, Structural)]
pub enum RestartConfig {
    No,
    OnSuccess,
    OnFailure,
    OnAbnormal,
    OnWatchdog,
    OnAbort,
    Always,
}

/// The name of a restart configuration.
pub open spec fn restart_name(r: RestartConfig) -> Seq<char> {
    match r {
        RestartConfig::No => "no"@,
        RestartConfig::OnSuccess => "on-success"@,
        RestartConfig::OnFailure => "on-failure"@,
        RestartConfig::OnAbnormal => "on-abnormal"@,
        RestartConfig::OnWatchdog => "on-watchdog"@,
        RestartConfig::OnAbort => "on-abort"@,
        RestartConfig::Always => "always"@,
    }
}

/// The restart policies of a compose service.
#[derive(Debug, Clone, Copy, PartialEq, Eq, Structural)]
pub enum ComposeRestart {
    No,
    Always,
    OnFailure,
    UnlessStopped,
}

impl RestartConfig {
    /// The name of this restart configuration.
    pub fn as_str(&self) -> (s: &'static str)
        ensures
            s@ == restart_name(*self),
    {
        match self {
            RestartConfig::No => "no",
            RestartConfig::OnSuccess => "on-success",
            RestartConfig::OnFailure => "on-failure",
            RestartConfig::OnAbnormal => "on-abnormal",
            RestartConfig::OnWatchdog => "on-watchdog",
            RestartConfig::OnAbort => "on-abort",
            RestartConfig::Always => "always",
        }
    }

    /// The restart configuration of a compose restart policy: "unless-stopped" restarts always.
    pub fn from_compose(value: ComposeRestart) -> (r: RestartConfig)
        ensures
            r == match value {
                ComposeRestart::No => RestartConfig::No,
                ComposeRestart::Always | ComposeRestart::UnlessStopped => RestartConfig::Always,
                ComposeRestart::OnFailure => RestartConfig::OnFailure,
            },
    {
        match value {
            ComposeRestart::No => RestartConfig::No,
            ComposeRestart::Always | ComposeRestart::UnlessStopped => RestartConfig::Always,
            ComposeRestart::OnFailure => RestartConfig::OnFailure,
        }
    }
}

/// Options of the `[Service]` section.
#[derive(Debug, Clone, Copy, PartialEq, Eq, Structural)]
pub struct Service {
    /// When the service is restarted.
    pub restart: Option<RestartConfig>,
}

/// The name of a restart configuration, where there is one.
pub open spec fn restart_text(r: Option<RestartConfig>) -> Option<Seq<char>> {
    match r {
        Some(c) => Some(restart_name(c)),
        None => None,
    }
}

/// The text of a `[Service]` section: its header, then "Restart=NAME" where it is set.
pub open spec fn service_text(s: Service) -> Seq<char> {
    header(false, "Service"@) + text_line("Restart"@, restart_text(s.restart))
}

impl Default for Service {
    /// A `[Service]` section with nothing set.
    fn default() -> (s: Service)
        ensures
            s.restart is None,
    {
        Service { restart: None }
    }
}

impl Service {
    /// A `[Service]` section that restarts as `restart` says.
    pub fn from_restart(restart: RestartConfig) -> (s: Service)
        ensures
            s.restart == Some(restart),
    {
        Service { restart: Some(restart) }
    }

    /// No option is set.
    pub fn is_empty(&self) -> (b: bool)
        ensures
            b == self.restart is None,
    {
        self.restart.is_none()
    }

    /// The text of the `[Service]` section.
    pub fn to_string(&self) -> (r: String)
        ensures
            r@ == service_text(*self),
    {
        let mut fields: Vec<Field> = Vec::new();
        let ghost t = Seq::<char>::empty();
        assert(fields_give(fields@, t));
        let value = match self.restart {
            Some(c) => Some(c.as_str().to_owned()),
            None => None,
        };
        let ghost lines = opt_line("Restart"@, value);
        assert(lines == text_line("Restart"@, restart_text(self.restart)));
        push_option(&mut fields, "Restart", value, Ghost(t));
        assert(t + lines =~= lines);
        section_text("Service", fields, Ghost(lines))
    }
}

} // verus!
