use vstd::prelude::*;

verus! {

/// Settings read once at start-up and never changed afterwards.
pub struct Config {
    /// The broker's connection URI.
    pub host: String,
    /// The exchange that the subscription binds to.
    pub exchange_name: String,
    /// The routing-key filter of the subscription.
    pub routing_key: String,
    /// The CPU threshold, in percent. The memory rule compares against it too.
    pub cpu_max: i32,
    /// The memory threshold, in percent. It is read from the configuration
    /// but no rule compares against it: the memory rule uses `cpu_max`.
    pub ram_max: i32,
    /// The executables whose stop raises an alert.
    pub delicate_processes: Vec<String>,
}

impl Config {
    /// The names of the critical executables, as character sequences.
    pub open spec fn delicate_view(&self) -> Seq<Seq<char>> {
        self.delicate_processes@.map_values(|s: String| s@)
    }
}

} // verus!
