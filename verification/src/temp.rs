//! Driver of the temperature sensor on the single-wire bus.
//!
//! The driver performs no bus transaction itself. It says which transaction
//! comes next, is told how that went, and decides from there, both when it
//! looks for the sensor and when it reads a temperature from it.

use crate::error::BusError;
use crate::resolution::{max_measurement_time_millis, Resolution};
use crate::rom::{accepts, is_sensor_address, rom_checksum_holds, sensor_family};
use vstd::prelude::*;

verus! {

/// What the driver knows of its sensor.
pub struct SensorId {
    /// The sensor's address on the bus.
    pub address: u64,
    /// The resolution found in the sensor's configuration.
    pub resolution: Resolution,
}

/// The temperature sensor, as found on the bus. Its address is a sensor's
/// address: the family code is the temperature sensor's and the checksum
/// holds.
#[derive(Debug, PartialEq, Eq)]
pub struct Temp {
    address: u64,
    resolution: Resolution,
}

impl View for Temp {
    type V = SensorId;

    closed spec fn view(&self) -> SensorId {
        SensorId { address: self.address, resolution: self.resolution }
    }
}

/// What the bus answered for one device of an enumeration.
#[derive(Clone, Copy, Debug)]
pub struct Probe {
    /// The address that the search arrived at, or why it arrived at none.
    pub found: Result<u64, BusError>,
    /// The resolution read from the device's configuration, or why none was
    /// read. It is looked at for a sensor only.
    pub config: Result<Resolution, BusError>,
}

/// What has happened on the bus since the last step of a search.
#[derive(Clone, Copy, Debug)]
pub enum SearchProgress {
    /// Nothing yet: the search begins.
    Begin,
    /// The bus was asked for the next device and answered with its address,
    /// with none when all devices have been seen, or with an error.
    Found(Result<Option<u64>, BusError>),
    /// The configuration of the device at `address` was asked for.
    Configured { address: u64, config: Result<Resolution, BusError> },
}

/// The next step of a search.
#[derive(Debug, PartialEq, Eq)]
pub enum SearchStep {
    /// Ask the bus for the next device.
    Search,
    /// Read the configuration of the device at `address`.
    Configure { address: u64 },
    /// The search is over: a sensor, none, or the error that ended it.
    Done(Result<Option<Temp>, BusError>),
}

/// A step of a search as its contracts see it.
pub enum SearchStepView {
    Search,
    Configure { address: u64 },
    Done(Result<Option<SensorId>, BusError>),
}

/// The outcome of a search with the sensor replaced by what is known of it.
pub open spec fn outcome_view(found: Result<Option<Temp>, BusError>) -> Result<
    Option<SensorId>,
    BusError,
> {
    match found {
        Ok(Some(sensor)) => Ok(Some(sensor@)),
        Ok(None) => Ok(None),
        Err(e) => Err(e),
    }
}

impl View for SearchStep {
    type V = SearchStepView;

    open spec fn view(&self) -> SearchStepView {
        match *self {
            SearchStep::Search => SearchStepView::Search,
            SearchStep::Configure { address } => SearchStepView::Configure { address },
            SearchStep::Done(found) => SearchStepView::Done(outcome_view(found)),
        }
    }
}

/// The step that follows `progress`.
///
/// A device that is no sensor is passed over, and so is one during whose
/// transactions an error occurred that is not fatal. A fatal error ends the
/// search. The first sensor whose configuration can be read is the result;
/// when the bus has no more devices, the result is that there is none.
pub open spec fn next_search_step(progress: SearchProgress) -> SearchStepView {
    match progress {
        SearchProgress::Begin => SearchStepView::Search,
        SearchProgress::Found(Ok(None)) => SearchStepView::Done(Ok(None)),
        SearchProgress::Found(Ok(Some(address))) => if is_sensor_address(address) {
            SearchStepView::Configure { address }
        } else {
            SearchStepView::Search
        },
        SearchProgress::Found(Err(e)) => after_error(e),
        SearchProgress::Configured { address, config } => if !is_sensor_address(address) {
            SearchStepView::Search
        } else {
            match config {
                Ok(resolution) => SearchStepView::Done(Ok(Some(SensorId { address, resolution }))),
                Err(e) => after_error(e),
            }
        },
    }
}

/// How a search goes on after an error: not at all after a fatal one, with
/// the next device after any other.
pub open spec fn after_error(e: BusError) -> SearchStepView {
    if e.fatal() {
        SearchStepView::Done(Err(e))
    } else {
        SearchStepView::Search
    }
}

/// What a search makes of one device: a sensor, a fatal error, or nothing,
/// when the device is passed over.
pub open spec fn probe_verdict(probe: Probe) -> Option<Result<SensorId, BusError>> {
    match probe.found {
        Err(e) => if e.fatal() {
            Some(Err(e))
        } else {
            None
        },
        Ok(address) => if !is_sensor_address(address) {
            None
        } else {
            match probe.config {
                Ok(resolution) => Some(Ok(SensorId { address, resolution })),
                Err(e) => if e.fatal() {
                    Some(Err(e))
                } else {
                    None
                },
            }
        },
    }
}

/// The outcome of a search over the devices of `probes`, in their order: what
/// the first device yields that is not passed over, and no sensor when all
/// are.
pub open spec fn first_sensor(probes: Seq<Probe>) -> Result<Option<SensorId>, BusError>
    decreases probes.len(),
{
    if probes.len() == 0 {
        Ok(None)
    } else {
        match probe_verdict(probes[0]) {
            Some(Ok(sensor)) => Ok(Some(sensor)),
            Some(Err(e)) => Err(e),
            None => first_sensor(probes.skip(1)),
        }
    }
}

/// What has happened on the bus since the last step of a reading.
#[derive(Clone, Copy, Debug)]
pub enum ReadProgress {
    /// Nothing yet: the reading begins.
    Begin,
    /// The sensor was told to measure.
    Started(Result<(), BusError>),
    /// The time asked for has passed.
    Settled,
    /// The measurement was asked for: the temperature in sixteenths of a
    /// degree Celsius, or why none was read.
    Fetched(Result<i32, BusError>),
}

/// The next step of a reading.
#[derive(Clone, Copy, Debug, PartialEq, Eq)]
pub enum ReadStep {
    /// Tell the sensor at `address` to measure.
    Start { address: u64 },
    /// Wait for `millis` milliseconds.
    Settle { millis: u16 },
    /// Ask the sensor at `address` for its measurement.
    Fetch { address: u64 },
    /// The reading is over: the temperature in sixteenths of a degree
    /// Celsius, or the error that ended it.
    Done(Result<i32, BusError>),
}

/// The step of a reading from `sensor` that follows `progress`: tell the
/// sensor to measure, wait as long as its resolution takes, ask for the
/// measurement, and hand it on. An error ends the reading where it occurs.
pub open spec fn next_read_step(sensor: SensorId, progress: ReadProgress) -> ReadStep {
    match progress {
        ReadProgress::Begin => ReadStep::Start { address: sensor.address },
        ReadProgress::Started(Ok(_)) => ReadStep::Settle {
            millis: sensor.resolution.measurement_millis() as u16,
        },
        ReadProgress::Started(Err(e)) => ReadStep::Done(Err(e)),
        ReadProgress::Settled => ReadStep::Fetch { address: sensor.address },
        ReadProgress::Fetched(sample) => ReadStep::Done(sample),
    }
}

/// A search over a bus on which no device answers finds no sensor, and ends
/// without an error.
pub proof fn lemma_empty_bus_has_no_sensor()
    ensures
        first_sensor(Seq::<Probe>::empty()) == Ok::<Option<SensorId>, BusError>(None),
        next_search_step(SearchProgress::Found(Ok(None))) == SearchStepView::Done(Ok(None)),
{
}

/// A device whose address fails its checksum is passed over: the search
/// goes on to the next device, and its outcome is that of a search over the
/// devices after it.
pub proof fn lemma_failed_checksum_is_passed_over(probes: Seq<Probe>, address: u64)
    requires
        probes.len() > 0,
        probes[0].found == Ok::<u64, BusError>(address),
        !rom_checksum_holds(address),
    ensures
        next_search_step(SearchProgress::Found(Ok(Some(address)))) == SearchStepView::Search,
        first_sensor(probes) == first_sensor(probes.skip(1)),
{
}

/// A device of another family is passed over in the same way.
pub proof fn lemma_other_family_is_passed_over(probes: Seq<Probe>, address: u64)
    requires
        probes.len() > 0,
        probes[0].found == Ok::<u64, BusError>(address),
        address % 256 != sensor_family(),
    ensures
        next_search_step(SearchProgress::Found(Ok(Some(address)))) == SearchStepView::Search,
        first_sensor(probes) == first_sensor(probes.skip(1)),
{
}

/// The two steps that a search takes over one device come to what
/// `probe_verdict` says of it: the search goes on exactly when the device is
/// passed over, and ends with the verdict otherwise.
pub proof fn lemma_steps_reach_verdict(probe: Probe)
    ensures
        ({
            let answer = match probe.found {
                Ok(address) => Ok(Some(address)),
                Err(e) => Err(e),
            };
            let first = next_search_step(SearchProgress::Found(answer));
            let last = match first {
                SearchStepView::Configure { address } => next_search_step(
                    SearchProgress::Configured { address, config: probe.config },
                ),
                _ => first,
            };
            match probe_verdict(probe) {
                None => last == SearchStepView::Search,
                Some(Ok(sensor)) => last == SearchStepView::Done(Ok(Some(sensor))),
                Some(Err(e)) => last == SearchStepView::Done(Err(e)),
            }
        }),
{
}

/// The outcome of a search is decided by the first device that is not passed
/// over: a sensor is found at position `i` exactly when the verdict there is
/// that sensor and every device before it is passed over, and likewise for
/// an error.
pub proof fn lemma_first_decides(probes: Seq<Probe>, i: int)
    requires
        0 <= i < probes.len(),
        forall|j: int| 0 <= j < i ==> probe_verdict(#[trigger] probes[j]) is None,
    ensures
        probe_verdict(probes[i]) matches Some(Ok(sensor)) ==> first_sensor(probes) == Ok::<
            Option<SensorId>,
            BusError,
        >(Some(sensor)),
        probe_verdict(probes[i]) matches Some(Err(e)) ==> first_sensor(probes) == Err::<
            Option<SensorId>,
            BusError,
        >(e),
        probe_verdict(probes[i]) is None ==> first_sensor(probes) == first_sensor(
            probes.skip(i + 1),
        ),
    decreases i,
{
    if i == 0 {
        assert(probes.skip(1) == probes.skip(i + 1));
    } else {
        let rest = probes.skip(1);
        assert(probe_verdict(probes[0]) is None);
        assert forall|j: int| 0 <= j < i - 1 implies probe_verdict(#[trigger] rest[j]) is None by {
            assert(rest[j] == probes[j + 1]);
        }
        assert(rest[i - 1] == probes[i]);
        lemma_first_decides(rest, i - 1);
        assert(rest.skip(i) == probes.skip(i + 1));
    }
}

/// A search in which every device is passed over finds no sensor.
pub proof fn lemma_all_passed_over(probes: Seq<Probe>)
    requires
        forall|j: int| 0 <= j < probes.len() ==> probe_verdict(#[trigger] probes[j]) is None,
    ensures
        first_sensor(probes) == Ok::<Option<SensorId>, BusError>(None),
    decreases probes.len(),
{
    if probes.len() > 0 {
        let rest = probes.skip(1);
        assert(probe_verdict(probes[0]) is None);
        assert forall|j: int| 0 <= j < rest.len() implies probe_verdict(#[trigger] rest[j]) is None by {
            assert(rest[j] == probes[j + 1]);
        }
        lemma_all_passed_over(rest);
    }
}

/// Whatever sensor a search finds has a sensor's address.
pub proof fn lemma_found_is_sensor(probes: Seq<Probe>)
    ensures
        first_sensor(probes) matches Ok(Some(sensor)) ==> is_sensor_address(sensor.address),
    decreases probes.len(),
{
    if probes.len() > 0 {
        lemma_found_is_sensor(probes.skip(1));
    }
}

impl Temp {
    #[verifier::type_invariant]
    spec fn inv(self) -> bool {
        is_sensor_address(self.address)
    }

    /// The sensor's address on the bus.
    pub fn address(&self) -> (address: u64)
        ensures
            address == self@.address,
            is_sensor_address(address),
    {
        proof {
            use_type_invariant(self);
        }
        self.address
    }

    /// The resolution found in the sensor's configuration.
    pub fn resolution(&self) -> (resolution: Resolution)
        ensures
            resolution == self@.resolution,
    {
        self.resolution
    }

    /// How a search goes on after the error `e`.
    fn after_error(e: BusError) -> (step: SearchStep)
        ensures
            step@ == after_error(e),
    {
        if e.is_fatal() {
            SearchStep::Done(Err(e))
        } else {
            SearchStep::Search
        }
    }

    /// One step of the search for the sensor: given what happened on the
    /// bus, says what to do next.
    pub fn discover(progress: SearchProgress) -> (step: SearchStep)
        ensures
            step@ == next_search_step(progress),
    {
        match progress {
            SearchProgress::Begin => SearchStep::Search,
            SearchProgress::Found(Ok(None)) => SearchStep::Done(Ok(None)),
            SearchProgress::Found(Ok(Some(address))) => {
                if accepts(address) {
                    SearchStep::Configure { address }
                } else {
                    SearchStep::Search
                }
            },
            SearchProgress::Found(Err(e)) => Temp::after_error(e),
            SearchProgress::Configured { address, config } => {
                if !accepts(address) {
                    SearchStep::Search
                } else {
                    match config {
                        Ok(resolution) => SearchStep::Done(Ok(Some(Temp { address, resolution }))),
                        Err(e) => Temp::after_error(e),
                    }
                }
            },
        }
    }

    /// Looks for the sensor among the devices that an enumeration of the bus
    /// came upon, in their order.
    pub fn new(probes: &Vec<Probe>) -> (found: Result<Option<Temp>, BusError>)
        ensures
            outcome_view(found) == first_sensor(probes@),
            probes@.len() == 0 ==> found == Ok::<Option<Temp>, BusError>(None),
            found matches Ok(Some(sensor)) ==> is_sensor_address(sensor@.address),
    {
        proof {
            lemma_found_is_sensor(probes@);
        }
        let mut i: usize = 0;
        assert(probes@.skip(0) == probes@);
        while i < probes.len()
            invariant
                i <= probes.len(),
                first_sensor(probes@) == first_sensor(probes@.skip(i as int)),
            decreases probes.len() - i,
        {
            let probe = probes[i];
            let answer = match probe.found {
                Ok(address) => Ok(Some(address)),
                Err(e) => Err(e),
            };
            let mut step = Temp::discover(SearchProgress::Found(answer));
            if let SearchStep::Configure { address } = step {
                step = Temp::discover(SearchProgress::Configured { address, config: probe.config });
            }
            proof {
                assert(probes@.skip(i as int)[0] == probe);
                assert(probes@.skip(i as int).skip(1) == probes@.skip(i + 1));
            }
            match step {
                SearchStep::Done(found) => {
                    return found;
                },
                _ => {},
            }
            i += 1;
        }
        Ok(None)
    }

    /// One step of a reading of the temperature: given what happened on the
    /// bus, says what to do next.
    pub fn read_c(&self, progress: ReadProgress) -> (step: ReadStep)
        ensures
            step == next_read_step(self@, progress),
    {
        match progress {
            ReadProgress::Begin => ReadStep::Start { address: self.address },
            ReadProgress::Started(Ok(_)) => ReadStep::Settle {
                millis: max_measurement_time_millis(self.resolution),
            },
            ReadProgress::Started(Err(e)) => ReadStep::Done(Err(e)),
            ReadProgress::Settled => ReadStep::Fetch { address: self.address },
            ReadProgress::Fetched(sample) => ReadStep::Done(sample),
        }
    }
}

/// A reading during which nothing fails takes three transactions, in this
/// order: the sensor is told to measure, the time that its resolution takes
/// is waited, and the measurement is fetched. Its result is the sample
/// fetched.
pub proof fn lemma_reading_in_order(sensor: SensorId, sample: Result<i32, BusError>)
    ensures
        next_read_step(sensor, ReadProgress::Begin) == (ReadStep::Start {
            address: sensor.address,
        }),
        next_read_step(sensor, ReadProgress::Started(Ok(()))) == (ReadStep::Settle {
            millis: sensor.resolution.measurement_millis() as u16,
        }),
        next_read_step(sensor, ReadProgress::Settled) == (ReadStep::Fetch {
            address: sensor.address,
        }),
        next_read_step(sensor, ReadProgress::Fetched(sample)) == ReadStep::Done(sample),
{
}

/// A reading whose start fails ends there, with that error: nothing is
/// waited for and nothing is fetched.
pub proof fn lemma_failed_start_ends_reading(sensor: SensorId, e: BusError)
    ensures
        next_read_step(sensor, ReadProgress::Started(Err(e))) == ReadStep::Done(Err(e)),
{
}

} // verus!
