//! The PulseAudio null sink that serves as the virtual microphone. The `pactl` runs
//! are made by the caller; this type decides what to run and what the output means.
use crate::text::{
    any_line_contains, concat_str, decimal, parse_u32, parse_u32_str, some_line_contains, trim,
    trim_str, u64_to_decimal,
};
use vstd::prelude::*;

verus! {

/// What a finished command produced: whether it succeeded, and its output and error
/// text (decoded from UTF-8 with replacement characters).
pub struct CommandOutput {
    pub success: bool,
    pub stdout: String,
    pub stderr: String,
}

/// Why the virtual device could not be created.
#[derive(Debug)]
pub enum DeviceError {
    /// `pactl load-module` failed; the field is its error text.
    LoadModuleFailed(String),
}

impl DeviceError {
    /// The message the application shows for this error.
    pub fn message(&self) -> (m: String)
        ensures
            match self {
                DeviceError::LoadModuleFailed(stderr) => m@ == "pactl load-module failed: "@
                    + stderr@,
            },
    {
        match self {
            DeviceError::LoadModuleFailed(stderr) => concat_str(
                "pactl load-module failed: ",
                stderr.as_str(),
            ),
        }
    }
}

/// The arguments of `pactl` that list the sinks.
pub open spec fn list_sinks_args() -> Seq<Seq<char>> {
    seq!["list"@, "short"@, "sinks"@]
}

/// The arguments of `pactl` that create the null sink `sink_name`.
pub open spec fn load_module_args(sink_name: Seq<char>) -> Seq<Seq<char>> {
    seq![
        "load-module"@,
        "module-null-sink"@,
        "sink_name="@ + sink_name,
        "sink_properties=device.description=\"Zundamon_VRC_Virtual_Mic\""@,
    ]
}

/// The arguments of `pactl` that unload module `id`.
pub open spec fn unload_module_args(id: u32) -> Seq<Seq<char>> {
    seq!["unload-module"@, decimal(id as nat)]
}

/// The views of a list of strings.
pub open spec fn args_view(v: Seq<String>) -> Seq<Seq<char>> {
    v.map_values(|a: String| a@)
}

/// `pactl list short sinks`.
pub fn list_sinks_command() -> (r: Vec<String>)
    ensures
        args_view(r@) == list_sinks_args(),
{
    let mut r: Vec<String> = Vec::new();
    r.push("list".to_owned());
    r.push("short".to_owned());
    r.push("sinks".to_owned());
    proof {
        assert(args_view(r@) =~= list_sinks_args());
    }
    r
}

/// A virtual output device: its sink name, and the id of the module that created it
/// when this program created it.
pub struct VirtualDevice {
    sink_name: String,
    module_id: Option<u32>,
}

impl VirtualDevice {
    /// The sink name.
    pub closed spec fn name(&self) -> Seq<char> {
        self.sink_name@
    }

    /// The module this program loaded for the sink, if any.
    pub closed spec fn module(&self) -> Option<u32> {
        self.module_id
    }

    /// A device named `sink_name` that this program has not created.
    pub fn new(sink_name: &str) -> (r: Self)
        ensures
            r.name() == sink_name@,
            r.module() is None,
    {
        VirtualDevice { sink_name: sink_name.to_owned(), module_id: None }
    }

    /// The sink name.
    pub fn sink_name(&self) -> (r: &str)
        ensures
            r@ == self.name(),
    {
        self.sink_name.as_str()
    }

    /// The module this program loaded for the sink, if any.
    pub fn module_id(&self) -> (r: Option<u32>)
        ensures
            r == self.module(),
    {
        self.module_id
    }

    /// The source that records what is played to the sink: `{sink_name}.monitor`.
    pub fn monitor_source(&self) -> (r: String)
        ensures
            r@ == self.name() + ".monitor"@,
    {
        concat_str(self.sink_name.as_str(), ".monitor")
    }

    /// Whether the sink is listed: some line of the `pactl list short sinks` output
    /// contains its name.
    pub fn is_listed(&self, sinks_listing: &str) -> (r: bool)
        ensures
            r == some_line_contains(sinks_listing@, self.name()),
    {
        any_line_contains(sinks_listing, self.sink_name.as_str())
    }

    /// The `pactl` arguments that create the sink, or `None` when the listing shows it
    /// exists already.
    pub fn create(&self, sinks_listing: &str) -> (r: Option<Vec<String>>)
        ensures
            some_line_contains(sinks_listing@, self.name()) ==> r is None,
            !some_line_contains(sinks_listing@, self.name()) ==> (r matches Some(args)
                && args_view(args@) == load_module_args(self.name())),
    {
        if self.is_listed(sinks_listing) {
            return None;
        }
        let mut args: Vec<String> = Vec::new();
        args.push("load-module".to_owned());
        args.push("module-null-sink".to_owned());
        args.push(concat_str("sink_name=", self.sink_name.as_str()));
        args.push("sink_properties=device.description=\"Zundamon_VRC_Virtual_Mic\"".to_owned());
        proof {
            assert(args_view(args@) =~= load_module_args(self.name()));
        }
        Some(args)
    }

    /// Takes in the result of `pactl load-module`: on failure, an error with its error
    /// text and nothing changed; on success, the module id is what its output, trimmed,
    /// reads as a `u32` (none when it is not one).
    pub fn record_created(&mut self, output: &CommandOutput) -> (r: Result<(), DeviceError>)
        ensures
            final(self).name() == old(self).name(),
            !output.success ==> (r matches Err(DeviceError::LoadModuleFailed(e)) && e@
                == output.stderr@ && final(self).module() == old(self).module()),
            output.success ==> (r is Ok && final(self).module() == parse_u32(
                trim(output.stdout@),
            )),
    {
        if !output.success {
            return Err(DeviceError::LoadModuleFailed(output.stderr.clone()));
        }
        let id = parse_u32_str(trim_str(output.stdout.as_str()));
        self.module_id = id;
        Ok(())
    }

    /// The `pactl` arguments that unload the module this program loaded, which is
    /// forgotten; `None` when there is none.
    pub fn destroy(&mut self) -> (r: Option<Vec<String>>)
        ensures
            final(self).name() == old(self).name(),
            final(self).module() is None,
            match old(self).module() {
                Some(id) => r matches Some(args) && args_view(args@) == unload_module_args(id),
                None => r is None,
            },
    {
        match self.module_id.take() {
            Some(id) => {
                let mut args: Vec<String> = Vec::new();
                args.push("unload-module".to_owned());
                args.push(u64_to_decimal(id as u64));
                proof {
                    assert(args_view(args@) =~= unload_module_args(id));
                }
                Some(args)
            },
            None => None,
        }
    }
}

} // verus!
