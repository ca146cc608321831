//! A scripted bus port: replays a configured reply and records every
//! transfer, so that the core can be driven without hardware.

use vstd::prelude::*;
use crate::bus::{BusError, BusEvent, BusPort};

verus! {

/// One recorded transfer, the executable counterpart of [`BusEvent`].
#[derive(Debug)]
pub enum BusRecord {
    Write { address: u8, bytes: Vec<u8>, ok: bool },
    Read { address: u8, len: usize, data: Option<Vec<u8>> },
}

/// The [`BusEvent`] a record stands for.
pub open spec fn record_event(r: BusRecord) -> BusEvent {
    match r {
        BusRecord::Write { address, bytes, ok } => BusEvent::Write { address, bytes: bytes@, ok },
        BusRecord::Read { address, len, data } => BusEvent::Read {
            address,
            len: len as nat,
            data: match data {
                Some(d) => Some(d@),
                None => None,
            },
        },
    }
}

/// A fresh vector holding the same bytes.
fn copy_bytes(v: &Vec<u8>) -> (r: Vec<u8>)
    ensures
        r@ == v@,
{
    let mut out: Vec<u8> = Vec::new();
    let mut i: usize = 0;
    while i < v.len()
        invariant
            i <= v@.len(),
            out@ == v@.subrange(0, i as int),
        decreases v@.len() - i,
    {
        out.push(v[i]);
        proof {
            assert(out@ =~= v@.subrange(0, i + 1));
        }
        i = i + 1;
    }
    proof {
        assert(out@ =~= v@);
    }
    out
}

/// A scripted port: a write is acknowledged unless `write_fault` is set; a
/// read returns a copy of `reply` when `read_fault` is clear and `reply` has
/// exactly the requested length, and fails otherwise.  Every transfer is
/// recorded in `history`, oldest first.
pub struct StubBus {
    pub write_fault: bool,
    pub read_fault: bool,
    pub reply: Vec<u8>,
    pub history: Vec<BusRecord>,
}

impl StubBus {
    /// A fault-free port that answers every read of the right length with
    /// `reply`.
    pub fn new(reply: Vec<u8>) -> (bus: StubBus)
        ensures
            !bus.write_fault,
            !bus.read_fault,
            bus.reply@ == reply@,
            bus.log() == Seq::<BusEvent>::empty(),
    {
        let bus = StubBus { write_fault: false, read_fault: false, reply, history: Vec::new() };
        proof {
            assert(bus.log() =~= Seq::<BusEvent>::empty());
        }
        bus
    }
}

impl BusPort for StubBus {
    open spec fn log(&self) -> Seq<BusEvent> {
        self.history@.map_values(|r: BusRecord| record_event(r))
    }

    fn bus_write(&mut self, address: u8, bytes: &Vec<u8>) -> (r: Result<(), BusError>) {
        let ok = !self.write_fault;
        let copied = copy_bytes(bytes);
        let rec = BusRecord::Write { address, bytes: copied, ok };
        let ghost grec: BusRecord = rec;
        self.history.push(rec);
        proof {
            old(self).history@.lemma_push_map_commute(|r: BusRecord| record_event(r), grec);
            assert(record_event(grec) == BusEvent::Write { address, bytes: bytes@, ok });
            assert(self.log() =~= old(self).log().push(BusEvent::Write {
                address,
                bytes: bytes@,
                ok,
            }));
        }
        if ok {
            Ok(())
        } else {
            Err(BusError::NoAcknowledge)
        }
    }

    fn bus_read(&mut self, address: u8, len: usize) -> (r: Result<Vec<u8>, BusError>) {
        if self.read_fault || self.reply.len() != len {
            let rec = BusRecord::Read { address, len, data: None };
            let ghost grec: BusRecord = rec;
            self.history.push(rec);
            proof {
                old(self).history@.lemma_push_map_commute(|r: BusRecord| record_event(r), grec);
                assert(record_event(grec) == BusEvent::Read {
                    address,
                    len: len as nat,
                    data: None,
                });
                assert(self.log() =~= old(self).log().push(BusEvent::Read {
                    address,
                    len: len as nat,
                    data: None,
                }));
            }
            Err(BusError::PhysicalFault)
        } else {
            let data = copy_bytes(&self.reply);
            let stored = copy_bytes(&data);
            let rec = BusRecord::Read { address, len, data: Some(stored) };
            let ghost grec: BusRecord = rec;
            self.history.push(rec);
            proof {
                old(self).history@.lemma_push_map_commute(|r: BusRecord| record_event(r), grec);
                assert(record_event(grec) == BusEvent::Read {
                    address,
                    len: len as nat,
                    data: Some(data@),
                });
                assert(self.log() =~= old(self).log().push(BusEvent::Read {
                    address,
                    len: len as nat,
                    data: Some(data@),
                }));
            }
            Ok(data)
        }
    }
}

} // verus!
