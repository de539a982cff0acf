use vstd::prelude::*;

verus! {

/// A board on the field bus whose liveness is watched.
#[allow(non_camel_case_types)]
#[derive(PartialEq, Eq, Structural, Hash, Debug, Copy, Clone)]
pub enum Device {
    BMS,
    MC,
    PRESSURE_HIGH,
    PRESSURE_LOW_1,
    PRESSURE_LOW_2,
    ELEKID,
    TORCHIC_1,
    TORCHIC_2,
}

pub const NUM_DEVICES: usize = 8;

/// Position of a device in the watchdog table.
pub open spec fn device_index(d: Device) -> int {
    match d {
        Device::BMS => 0,
        Device::MC => 1,
        Device::PRESSURE_HIGH => 2,
        Device::PRESSURE_LOW_1 => 3,
        Device::PRESSURE_LOW_2 => 4,
        Device::ELEKID => 5,
        Device::TORCHIC_1 => 6,
        Device::TORCHIC_2 => 7,
    }
}

pub open spec fn device_at(i: int) -> Device {
    if i == 0 {
        Device::BMS
    } else if i == 1 {
        Device::MC
    } else if i == 2 {
        Device::PRESSURE_HIGH
    } else if i == 3 {
        Device::PRESSURE_LOW_1
    } else if i == 4 {
        Device::PRESSURE_LOW_2
    } else if i == 5 {
        Device::ELEKID
    } else if i == 6 {
        Device::TORCHIC_1
    } else {
        Device::TORCHIC_2
    }
}

impl Device {
    pub fn index(&self) -> (r: usize)
        ensures
            r == device_index(*self),
            r < NUM_DEVICES,
    {
        match self {
            Device::BMS => 0,
            Device::MC => 1,
            Device::PRESSURE_HIGH => 2,
            Device::PRESSURE_LOW_1 => 3,
            Device::PRESSURE_LOW_2 => 4,
            Device::ELEKID => 5,
            Device::TORCHIC_1 => 6,
            Device::TORCHIC_2 => 7,
        }
    }

    pub fn from_index(i: usize) -> (r: Device)
        requires
            i < NUM_DEVICES,
        ensures
            r == device_at(i as int),
            device_index(r) == i,
    {
        match i {
            0 => Device::BMS,
            1 => Device::MC,
            2 => Device::PRESSURE_HIGH,
            3 => Device::PRESSURE_LOW_1,
            4 => Device::PRESSURE_LOW_2,
            5 => Device::ELEKID,
            6 => Device::TORCHIC_1,
            _ => Device::TORCHIC_2,
        }
    }
}

/// Judgement of the watchdog: a device never seen is functioning; one last
/// seen at `last` is functioning while `now - last` is at most twice its period.
/// Times are in milliseconds.
pub open spec fn functioning(last_message: Option<i64>, period: i64, now: i64) -> bool {
    match last_message {
        None => true,
        Some(last) => now - last <= 2 * period,
    }
}

/// Last time a device was heard from, and the period it is expected to send at.
#[derive(PartialEq, Eq, Structural, Debug, Copy, Clone)]
pub struct DeviceWatchdog {
    pub last_message: Option<i64>,
    pub period: i64,
}

impl DeviceWatchdog {
    pub fn new(period: i64) -> (r: DeviceWatchdog)
        ensures
            r.last_message is None,
            r.period == period,
    {
        DeviceWatchdog { last_message: None, period }
    }

    pub fn update_last_message(&mut self, timestamp: i64)
        ensures
            final(self).last_message == Some(timestamp),
            final(self).period == old(self).period,
    {
        self.last_message = Some(timestamp);
    }

    /// Whether the device counts as alive at time `now`.
    pub fn is_device_functioning(&self, now: i64) -> (r: bool)
        ensures
            r == functioning(self.last_message, self.period, now),
    {
        match self.last_message {
            None => true,
            Some(last) => (now as i128) - (last as i128) <= 2 * (self.period as i128),
        }
    }
}

/// One watchdog per device, kept in the order of `Device::index`.
pub struct DeviceWatchdogMap {
    watchdogs: Vec<DeviceWatchdog>,
}

impl DeviceWatchdogMap {
    pub closed spec fn wf(&self) -> bool {
        self.watchdogs@.len() == NUM_DEVICES
    }

    /// The watchdog of a device.
    pub closed spec fn entry(&self, d: Device) -> DeviceWatchdog {
        self.watchdogs@[device_index(d)]
    }

    pub open spec fn is_functioning(&self, d: Device, now: i64) -> bool {
        functioning(self.entry(d).last_message, self.entry(d).period, now)
    }

    /// Watchdogs for every device, none of them seen yet.
    pub fn with_all_devices(period: i64) -> (r: DeviceWatchdogMap)
        ensures
            r.wf(),
            forall|d: Device| #[trigger] r.entry(d) == DeviceWatchdog::new_spec(period),
    {
        let mut watchdogs: Vec<DeviceWatchdog> = Vec::new();
        let mut i: usize = 0;
        while i < NUM_DEVICES
            invariant
                i <= NUM_DEVICES,
                watchdogs@.len() == i,
                forall|j: int| 0 <= j < i ==> watchdogs@[j] == DeviceWatchdog::new_spec(period),
            decreases NUM_DEVICES - i,
        {
            watchdogs.push(DeviceWatchdog::new(period));
            i = i + 1;
        }
        let r = DeviceWatchdogMap { watchdogs };
        assert forall|d: Device| #[trigger] r.entry(d) == DeviceWatchdog::new_spec(period) by {
            assert(0 <= device_index(d) < NUM_DEVICES);
        }
        r
    }

    pub fn get(&self, device: Device) -> (r: DeviceWatchdog)
        requires
            self.wf(),
        ensures
            r == self.entry(device),
    {
        self.watchdogs[device.index()]
    }

    /// Records that `device` was heard from at `timestamp`.
    pub fn update_device_timestamp(&mut self, device: Device, timestamp: i64)
        requires
            old(self).wf(),
        ensures
            final(self).wf(),
            final(self).entry(device) == (DeviceWatchdog {
                last_message: Some(timestamp),
                period: old(self).entry(device).period,
            }),
            forall|d: Device| d != device ==> #[trigger] final(self).entry(d) == old(self).entry(d),
    {
        let i = device.index();
        let mut w = self.watchdogs[i];
        w.update_last_message(timestamp);
        self.watchdogs.set(i, w);
        assert forall|d: Device| d != device implies #[trigger] self.entry(d) == old(self).entry(d) by {
            assert(device_index(d) != device_index(device));
        }
    }

    /// The devices judged not functioning at `now`, each once, in the order of
    /// `Device::index`.
    pub fn check_devices(&self, now: i64) -> (r: Vec<Device>)
        requires
            self.wf(),
        ensures
            r@.no_duplicates(),
            forall|d: Device| r@.contains(d) <==> !self.is_functioning(d, now),
    {
        let mut failing: Vec<Device> = Vec::new();
        let mut i: usize = 0;
        while i < NUM_DEVICES
            invariant
                self.wf(),
                i <= NUM_DEVICES,
                failing@.no_duplicates(),
                forall|j: int| 0 <= j < failing@.len() ==> device_index(#[trigger] failing@[j]) < i,
                forall|d: Device|
                    device_index(d) < i ==> (failing@.contains(d) <==> !self.is_functioning(d, now)),
            decreases NUM_DEVICES - i,
        {
            let device = Device::from_index(i);
            let ghost before = failing@;
            if !self.watchdogs[i].is_device_functioning(now) {
                failing.push(device);
                assert(!before.contains(device));
            }
            assert forall|d: Device|
                device_index(d) < i + 1 implies (failing@.contains(d) <==> !self.is_functioning(
                d,
                now,
            )) by {
                if device_index(d) == i {
                    assert(d == device);
                    if self.is_functioning(d, now) {
                        assert(failing@ == before);
                    } else {
                        assert(failing@.last() == d);
                    }
                } else {
                    assert(d != device);
                    if failing@.contains(d) {
                        let j = choose|j: int| 0 <= j < failing@.len() && failing@[j] == d;
                        if j < before.len() {
                            assert(before[j] == d);
                        }
                    }
                    if before.contains(d) {
                        let j = choose|j: int| 0 <= j < before.len() && before[j] == d;
                        assert(failing@[j] == d);
                    }
                }
            }
            i = i + 1;
        }
        failing
    }
}

impl DeviceWatchdog {
    pub open spec fn new_spec(period: i64) -> DeviceWatchdog {
        DeviceWatchdog { last_message: None, period }
    }
}

/// A device never heard from is functioning at every time; one last heard
/// from at `t0` is functioning exactly up to `t0 + 2 * period`.
pub proof fn lemma_watchdog_judgement(period: i64, t0: i64, now: i64)
    ensures
        functioning(None, period, now),
        now <= t0 + 2 * period ==> functioning(Some(t0), period, now),
        now > t0 + 2 * period ==> !functioning(Some(t0), period, now),
{
}

} // verus!
