//! The Matrix connector: the rooms it watches, and the handle of its
//! worker.

use crate::config;
use crate::event::Command;
use crate::worker::Exit;
use crate::worker::Launch;
use crate::worker::Supervisor;
use crate::worker::WorkerError;
use crate::worker::concluded;
use crate::worker::launched;
use crate::worker::relaunched;
use crate::worker::stop_signal;
use vstd::prelude::*;

verus! {

/// The name that posts from the room at `address` are filed under: that of
/// the first of `rooms` with this address.
pub open spec fn room_name(rooms: Seq<config::RoomView>, address: Seq<char>) -> Option<Seq<char>>
    decreases rooms.len(),
{
    if rooms.len() == 0 {
        None
    } else if rooms[0].address == address {
        Some(rooms[0].name)
    } else {
        room_name(rooms.skip(1), address)
    }
}

/// Whether the room at `address` is one of `rooms`.
pub open spec fn watches(rooms: Seq<config::RoomView>, address: Seq<char>) -> bool {
    exists|i: int| 0 <= i < rooms.len() && (#[trigger] rooms[i]).address == address
}

/// A room has a name exactly if it is watched.
pub proof fn lemma_room_name(rooms: Seq<config::RoomView>, address: Seq<char>)
    ensures
        room_name(rooms, address) is Some <==> watches(rooms, address),
    decreases rooms.len(),
{
    if rooms.len() > 0 {
        let rest = rooms.skip(1);
        lemma_room_name(rest, address);
        if rooms[0].address != address {
            if watches(rooms, address) {
                let i = choose|i: int|
                    0 <= i < rooms.len() && (#[trigger] rooms[i]).address == address;
                assert(rest[i - 1].address == address);
            }
            if watches(rest, address) {
                let i = choose|i: int| 0 <= i < rest.len() && (#[trigger] rest[i]).address == address;
                assert(rooms[i + 1].address == address);
            }
        }
    }
}

/// The name that posts from the room at `address` are filed under, if the
/// room is watched.
pub fn find_room(rooms: &Vec<config::Room>, address: &String) -> (name: Option<String>)
    ensures
        match name {
            Some(name) => Some(name@),
            None => None,
        } == room_name(config::room_views(rooms@), address@),
{
    let ghost all = config::room_views(rooms@);
    let mut i: usize = 0;
    assert(all.skip(0) =~= all);
    while i < rooms.len()
        invariant
            i <= rooms@.len(),
            all == config::room_views(rooms@),
            room_name(all, address@) == room_name(all.skip(i as int), address@),
        decreases rooms@.len() - i,
    {
        assert(all.skip(i as int)[0] == rooms@[i as int]@);
        assert(all.skip(i as int).skip(1) =~= all.skip(i + 1));
        if rooms[i].address == *address {
            return Some(rooms[i].name.clone());
        }
        i += 1;
    }
    None
}

/// Whether the room at `address` is watched.
pub fn is_relevant(rooms: &Vec<config::Room>, address: &String) -> (relevant: bool)
    ensures
        relevant == watches(config::room_views(rooms@), address@),
{
    proof {
        lemma_room_name(config::room_views(rooms@), address@);
    }
    find_room(rooms, address).is_some()
}

/// The handle of the Matrix connector worker.
#[derive(Debug, PartialEq, Eq)]
pub struct Matrix {
    supervisor: Supervisor,
}

impl Matrix {
    /// Whether the worker was told to stop.
    pub closed spec fn stopping(&self) -> bool {
        self.supervisor.stopping()
    }

    /// The handle of a connector that is to be spawned with `config`, to
    /// send its events through `consumer`.
    pub fn new<O>(config: config::Matrix, consumer: O) -> (started: (
        Self,
        Launch<config::Matrix, O>,
    ))
        ensures
            !started.0.stopping(),
            started.1 == (Launch { config, resources: consumer }),
    {
        let started = Supervisor::spawn(config, consumer);
        (Matrix { supervisor: started.0 }, started.1)
    }

    /// Tells the worker to stop. The signal is to be sent only where the
    /// control channel is still open, and only once.
    pub fn stop(&mut self, closed: bool) -> (signal: Option<Command>)
        ensures
            final(self).stopping(),
            signal == if old(self).stopping() {
                None
            } else {
                stop_signal(!closed)
            },
    {
        self.supervisor.stop(!closed)
    }

    /// Ends the worker with its joined task and begins it anew with
    /// `config` and the output handle that the task handed back.
    pub fn reload<O>(self, exit: Exit<O>, config: config::Matrix) -> (next: Result<
        (Self, Launch<config::Matrix, O>),
        WorkerError,
    >)
        ensures
            launched(next) == relaunched(exit, config),
            next matches Ok(started) ==> !started.0.stopping(),
    {
        match self.supervisor.reload(exit, config) {
            Ok(started) => Ok((Matrix { supervisor: started.0 }, started.1)),
            Err(error) => Err(error),
        }
    }

    /// Ends the worker with its joined task.
    pub fn shutdown<O>(self, exit: Exit<O>) -> (end: Result<(), WorkerError>)
        ensures
            end == concluded(exit),
    {
        self.supervisor.shutdown(exit)
    }
}

} // verus!
