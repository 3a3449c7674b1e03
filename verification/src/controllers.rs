//! Which controllers the operator runs: those named by its flags, or all of
//! them when none is named.
use vstd::prelude::*;

verus! {

/// The flags that name controllers to run.
#[derive(Debug, Clone, Copy)]
pub struct ControllerFlags {
    /// The network controller (`--nw`).
    pub nw: bool,
    /// The router controller (`--rt`).
    pub rt: bool,
    /// The neighbor controller (`--neighbor`, also `--nl`).
    pub neighbor: bool,
    /// The pod-sync controller (`--pod`).
    pub pod: bool,
    /// The certificate controller (`--cert`).
    pub cert: bool,
    /// The external certificate controller (`--ext-cert`).
    pub ext_cert: bool,
}

impl Default for ControllerFlags {
    /// No controller named.
    fn default() -> (r: ControllerFlags)
        ensures
            !r.nw && !r.rt && !r.neighbor && !r.pod && !r.cert && !r.ext_cert,
    {
        ControllerFlags { nw: false, rt: false, neighbor: false, pod: false, cert: false, ext_cert: false }
    }
}

/// A controller of the operator, in the order they are started.
#[derive(Debug, Clone, Copy, PartialEq, Eq, PartialOrd, Ord, Hash, Structural)]
pub enum Controllers {
    Network,
    Router,
    Neighbor,
    PodSync,
    Certificate,
    ExternalCertificate,
}

/// Every controller, in order.
pub open spec fn all_controllers() -> Seq<Controllers> {
    seq![
        Controllers::Network,
        Controllers::Router,
        Controllers::Neighbor,
        Controllers::PodSync,
        Controllers::Certificate,
        Controllers::ExternalCertificate,
    ]
}

/// The controllers a set of flags names, in order.
pub open spec fn named(f: ControllerFlags) -> Seq<Controllers> {
    (if f.nw {
        seq![Controllers::Network]
    } else {
        Seq::empty()
    }) + (if f.rt {
        seq![Controllers::Router]
    } else {
        Seq::empty()
    }) + (if f.neighbor {
        seq![Controllers::Neighbor]
    } else {
        Seq::empty()
    }) + (if f.pod {
        seq![Controllers::PodSync]
    } else {
        Seq::empty()
    }) + (if f.cert {
        seq![Controllers::Certificate]
    } else {
        Seq::empty()
    }) + (if f.ext_cert {
        seq![Controllers::ExternalCertificate]
    } else {
        Seq::empty()
    })
}

impl Controllers {
    /// Every controller, in order.
    pub fn all() -> (r: [Controllers; 6])
        ensures
            r@ == all_controllers(),
    {
        let r = [
            Controllers::Network,
            Controllers::Router,
            Controllers::Neighbor,
            Controllers::PodSync,
            Controllers::Certificate,
            Controllers::ExternalCertificate,
        ];
        assert(r@ =~= all_controllers());
        r
    }
}

impl ControllerFlags {
    /// The controllers to run: those the flags name, in order, or every
    /// controller when they name none.
    pub fn selection(self) -> (r: Vec<Controllers>)
        ensures
            r@ == if named(self).len() == 0 {
                all_controllers()
            } else {
                named(self)
            },
    {
        let mut set: Vec<Controllers> = Vec::new();
        if self.nw {
            set.push(Controllers::Network);
        }
        if self.rt {
            set.push(Controllers::Router);
        }
        if self.neighbor {
            set.push(Controllers::Neighbor);
        }
        if self.pod {
            set.push(Controllers::PodSync);
        }
        if self.cert {
            set.push(Controllers::Certificate);
        }
        if self.ext_cert {
            set.push(Controllers::ExternalCertificate);
        }
        assert(set@ =~= named(self));
        if set.len() == 0 {
            let all = Controllers::all();
            let mut v: Vec<Controllers> = Vec::new();
            let mut i: usize = 0;
            while i < 6
                invariant
                    i <= 6,
                    all@ == all_controllers(),
                    v@ == all_controllers().subrange(0, i as int),
                decreases 6 - i,
            {
                v.push(all[i]);
                assert(v@ =~= all_controllers().subrange(0, i + 1));
                i = i + 1;
            }
            assert(v@ =~= all_controllers());
            v
        } else {
            set
        }
    }
}

/// The selection holds no controller twice, and holds every controller when
/// no flag is set.
pub proof fn law_selection_distinct(f: ControllerFlags)
    ensures
        ({
            let s = if named(f).len() == 0 {
                all_controllers()
            } else {
                named(f)
            };
            s.no_duplicates()
        }),
{
    let n = named(f);
    assert(all_controllers().no_duplicates());
    assert forall|i: int, j: int| 0 <= i < n.len() && 0 <= j < n.len() && i != j implies n[i]
        != n[j] by {
        let pos = |c: Controllers| -> int {
            match c {
                Controllers::Network => 0,
                Controllers::Router => 1,
                Controllers::Neighbor => 2,
                Controllers::PodSync => 3,
                Controllers::Certificate => 4,
                Controllers::ExternalCertificate => 5,
            }
        };
        assert(forall|a: int, b: int| 0 <= a < b < n.len() ==> pos(n[a]) < pos(n[b]));
    }
}

} // verus!
