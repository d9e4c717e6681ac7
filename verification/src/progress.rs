//! Progress reporting data.
//!
//! A monitor is configured with the addresses of the progress interfaces to
//! watch and decides when the whole run is finished; polling the interfaces
//! is transport work and happens outside the library.

use vstd::prelude::*;
use vstd::string::*;

verus! {

/// One service's progress snapshot.
#[derive(Debug)]
pub struct Progress {
    pub current_step: u32,
    pub max_steps: u32,
    pub current_title: String,
    pub finished: bool,
    pub object_path: String,
}

impl Default for Progress {
    fn default() -> (r: Self)
        ensures
            r.current_step == 0,
            r.max_steps == 0,
            r.current_title@ == Seq::<char>::empty(),
            !r.finished,
            r.object_path@ == Seq::<char>::empty(),
    {
        Progress {
            current_step: 0,
            max_steps: 0,
            current_title: String::new(),
            finished: false,
            object_path: String::new(),
        }
    }
}

/// The address of one progress interface: a service destination and an
/// object path.
#[derive(Debug)]
pub struct ProxyAddress {
    pub destination: String,
    pub path: String,
}

/// Watches the progress interfaces of a set of services: which interfaces to
/// poll, and when the whole run counts as finished.
#[derive(Debug)]
pub struct ProgressMonitor {
    pub proxies: Vec<ProxyAddress>,
}

impl Default for ProgressMonitor {
    fn default() -> (r: Self)
        ensures
            r.proxies@ == Seq::<ProxyAddress>::empty(),
    {
        ProgressMonitor { proxies: Vec::new() }
    }
}

impl ProgressMonitor {
    /// Adds one more interface to watch, at the end of the list.
    pub fn add_proxy(&mut self, proxy: ProxyAddress)
        ensures
            final(self).proxies@ == old(self).proxies@.push(proxy),
    {
        self.proxies.push(proxy);
    }
}

/// Whether every watched service reports that it has finished.
pub fn all_finished(states: &Vec<Progress>) -> (r: bool)
    ensures
        r == (forall|j: int| 0 <= j < states@.len() ==> states@[j].finished),
{
    let mut i: usize = 0;
    while i < states.len()
        invariant
            i <= states@.len(),
            forall|j: int| 0 <= j < i ==> states@[j].finished,
        decreases states@.len() - i,
    {
        if !states[i].finished {
            return false;
        }
        i += 1;
    }
    true
}

} // verus!
