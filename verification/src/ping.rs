//! The ping: a sign of life with the latest of what the other tasks reported.

use vstd::prelude::*;

verus! {

/// What the other tasks report, and the request to send a ping.
pub enum PingEvent {
    UpadeEnv(String),
    UpdateEnvStatus(u8),
    UpdateEnvError(u8),
    UpdateBatCapacity(u8),
    SendPing,
}

/// What a ping is to say.
pub struct PingReport {
    pub ping_counter: u64,
    pub environment: String,
    pub environment_status: u8,
    pub environment_error: u8,
    pub bat_capacity: u8,
    pub startup_time: String,
}

/// The latest reports, and how many pings were sent.
pub struct Ping {
    pub ping_counter: u64,
    pub environment: String,
    pub environment_status: u8,
    pub environment_error: u8,
    pub bat_capacity: u8,
    pub startup_time: String,
}

impl Ping {
    /// Nothing reported yet and no ping sent.
    pub fn new(startup_time: String) -> (ping: Ping)
        ensures
            ping.ping_counter == 0,
            ping.environment@ == Seq::<char>::empty(),
            ping.environment_status == 0,
            ping.environment_error == 0,
            ping.bat_capacity == 0,
            ping.startup_time == startup_time,
    {
        Ping {
            ping_counter: 0,
            environment: String::new(),
            environment_status: 0,
            environment_error: 0,
            bat_capacity: 0,
            startup_time,
        }
    }

    /// Takes note of a report, or hands out what the next ping is to say
    /// and counts it.
    pub fn handle(&mut self, event: PingEvent) -> (report: Option<PingReport>)
        requires
            event is SendPing ==> old(self).ping_counter < u64::MAX,
        ensures
            final(self).startup_time == old(self).startup_time,
            final(self).environment@ == (if let PingEvent::UpadeEnv(value) = event {
                value@
            } else {
                old(self).environment@
            }),
            final(self).environment_status == (if let PingEvent::UpdateEnvStatus(value) = event {
                value
            } else {
                old(self).environment_status
            }),
            final(self).environment_error == (if let PingEvent::UpdateEnvError(value) = event {
                value
            } else {
                old(self).environment_error
            }),
            final(self).bat_capacity == (if let PingEvent::UpdateBatCapacity(value) = event {
                value
            } else {
                old(self).bat_capacity
            }),
            final(self).ping_counter == (if event is SendPing {
                old(self).ping_counter + 1
            } else {
                old(self).ping_counter as int
            }),
            report is Some <==> event is SendPing,
            report matches Some(said) ==> {
                &&& said.ping_counter == old(self).ping_counter
                &&& said.environment@ == old(self).environment@
                &&& said.environment_status == old(self).environment_status
                &&& said.environment_error == old(self).environment_error
                &&& said.bat_capacity == old(self).bat_capacity
                &&& said.startup_time@ == old(self).startup_time@
            },
    {
        match event {
            PingEvent::UpadeEnv(value) => {
                self.environment = value;
                None
            },
            PingEvent::UpdateEnvStatus(value) => {
                self.environment_status = value;
                None
            },
            PingEvent::UpdateEnvError(value) => {
                self.environment_error = value;
                None
            },
            PingEvent::UpdateBatCapacity(value) => {
                self.bat_capacity = value;
                None
            },
            PingEvent::SendPing => {
                let report = PingReport {
                    ping_counter: self.ping_counter,
                    environment: self.environment.clone(),
                    environment_status: self.environment_status,
                    environment_error: self.environment_error,
                    bat_capacity: self.bat_capacity,
                    startup_time: self.startup_time.clone(),
                };
                self.ping_counter += 1;
                Some(report)
            },
        }
    }
}

} // verus!
