//! The binding to a running PICO-8 or WASM-4: which process, which flavor,
//! and where in its memory the GPIO area lies.

use vstd::prelude::*;
use vstd::slice::slice_subrange;
use crate::constants::magic_seq;
use crate::detector::{classify_executable, flavor_of, InfoPlist};
use crate::memory::{find_pinput_magic, is_data_segment, MemoryRegion};
use crate::paths::Platform;
use crate::search::{first_occurrence, lemma_first_occurrence_is_unique, occurs};

verus! {

/// The number by which the operating system knows a process.
pub type Pid = i32;

/// Why no runtime could be bound.
#[derive(Clone, Debug, PartialEq, Eq)]
pub enum Error {
    /// No running PICO-8 or WASM-4 process was found.
    NoProcessesFound,
    /// The process runs no cartridge that announces itself with the magic
    /// bytes, or none yet.
    PinputNotEnabled(Pid),
    /// The magic bytes are not in this one memory region.
    PinputMagicNotFound,
    /// The file at `path` lies in no app bundle.
    AppBundle { path: Vec<u8> },
    /// The `Info.plist` of an app bundle could not be read.
    Plist,
    /// The operating system refused to show a process or its memory.
    IOError,
}

/// Which of the two runtimes a process is.
#[derive(Clone, Copy, Debug, PartialEq, Eq, Structural)]
pub enum RuntimeFlavor {
    Pico8,
    Wasm4,
}

impl RuntimeFlavor {
    /// The name of the runtime as its makers write it.
    pub open spec fn display(self) -> Seq<char> {
        match self {
            RuntimeFlavor::Pico8 => "PICO-8"@,
            RuntimeFlavor::Wasm4 => "WASM-4"@,
        }
    }

    /// The name of the runtime as its makers write it: `PICO-8` or `WASM-4`.
    pub fn name(&self) -> (name: &'static str)
        ensures
            name@ == self.display(),
    {
        match self {
            RuntimeFlavor::Pico8 => "PICO-8",
            RuntimeFlavor::Wasm4 => "WASM-4",
        }
    }
}

/// A runtime that was found with its GPIO area: what the synchronisation
/// loop reads and writes until the first failure. The address stays as it
/// was found for as long as the connection lives.
#[derive(Clone, Copy, Debug, PartialEq, Eq, Structural)]
pub struct RuntimeConnection {
    /// Only shown to the user.
    pub pid: Pid,
    /// Only shown to the user.
    pub flavor: RuntimeFlavor,
    /// Where the 128 bytes of GPIO begin in the memory of the process: the
    /// magic bytes at first, then the eight gamepad records.
    pub gpio_address: usize,
}

impl RuntimeConnection {
    /// The connection to the GPIO area at `gpio_address` in process `pid`.
    pub fn new(pid: Pid, flavor: RuntimeFlavor, gpio_address: usize) -> (connection: Self)
        ensures
            connection == (RuntimeConnection { pid, flavor, gpio_address }),
    {
        RuntimeConnection { pid, flavor, gpio_address }
    }
}

/// What is known of one running process.
#[derive(Clone, Debug, PartialEq, Eq)]
pub struct ProcessEntry {
    pub pid: Pid,
    /// The path of its executable, where the operating system shows it.
    pub exe: Option<Vec<u8>>,
    /// What was read of the `Info.plist` of the app bundle around the
    /// executable, where there is one and it could be read.
    pub info_plist: Option<InfoPlist>,
}

impl ProcessEntry {
    /// The flavor of the runtime that this process is, if it is one. A
    /// process whose executable is not shown is none.
    pub open spec fn flavor(self, platform: Platform) -> Option<RuntimeFlavor> {
        match self.exe {
            Some(path) => flavor_of(
                platform,
                path@,
                match self.info_plist {
                    Some(info) => Some(&info),
                    None => None,
                },
            ),
            None => None,
        }
    }

    /// The flavor of the runtime that this process is, if it is one.
    pub fn classify(&self, platform: Platform) -> (flavor: Option<RuntimeFlavor>)
        ensures
            flavor == self.flavor(platform),
    {
        match &self.exe {
            Some(path) => classify_executable(
                platform,
                path.as_slice(),
                match &self.info_plist {
                    Some(info) => Some(info),
                    None => None,
                },
            ),
            None => None,
        }
    }
}

/// Whether process `i` is a runtime and none before it is.
pub open spec fn is_first_runtime(
    platform: Platform,
    processes: Seq<ProcessEntry>,
    i: int,
) -> bool {
    &&& 0 <= i < processes.len()
    &&& processes[i].flavor(platform) is Some
    &&& forall|earlier: int|
        0 <= earlier < i ==> (#[trigger] processes[earlier]).flavor(platform) is None
}

/// Picks the runtime to bind among the running processes: the first that
/// is one, in the order given. Fails with `NoProcessesFound` where none is.
pub fn select_runtime(platform: Platform, processes: &Vec<ProcessEntry>) -> (selected: Result<
    (Pid, RuntimeFlavor),
    Error,
>)
    ensures
        match selected {
            Ok((pid, flavor)) => exists|i: int|
                is_first_runtime(platform, processes@, i) && pid == (#[trigger] processes@[i]).pid
                    && Some(flavor) == processes@[i].flavor(platform),
            Err(Error::NoProcessesFound) => forall|i: int|
                0 <= i < processes@.len() ==> (#[trigger] processes@[i]).flavor(platform) is None,
            Err(_) => false,
        },
{
    let mut i: usize = 0;
    while i < processes.len()
        invariant
            i <= processes@.len(),
            forall|earlier: int|
                0 <= earlier < i ==> (#[trigger] processes@[earlier]).flavor(platform) is None,
        decreases processes@.len() - i,
    {
        if let Some(flavor) = processes[i].classify(platform) {
            return Ok((processes[i].pid, flavor));
        }
        i += 1;
    }
    Err(Error::NoProcessesFound)
}

/// A region of the runtime's memory with what is needed to tell whether to
/// search it.
#[derive(Clone, Debug, PartialEq, Eq)]
pub struct Candidate {
    pub region: MemoryRegion,
    /// What was read of the `Info.plist` of the app bundle around the file
    /// that the region is mapped from, where there is one and it could be
    /// read.
    pub info_plist: Option<InfoPlist>,
}

impl Candidate {
    /// Whether the region is searched for the GPIO area.
    pub open spec fn is_searched(self, platform: Platform, flavor: RuntimeFlavor) -> bool {
        self.region.is_searched(
            platform,
            flavor,
            match self.info_plist {
                Some(info) => Some(&info),
                None => None,
            },
        )
    }

    /// Where the GPIO area lies if these are the bytes read of the region:
    /// where the magic first stands in them. Bytes beyond the size of the
    /// region are not looked at, nor is a place beyond the address space
    /// taken for the GPIO area.
    pub open spec fn gpio_in(self, data: Seq<u8>) -> Option<usize> {
        let within = if data.len() <= self.region.size {
            data
        } else {
            data.take(self.region.size as int)
        };
        let offset = choose|offset: int| first_occurrence(within, magic_seq(), offset);
        if occurs(within, magic_seq()) && self.region.start + offset <= usize::MAX {
            Some((self.region.start + offset) as usize)
        } else {
            None
        }
    }
}

/// The index of the first region at or behind `from` that is searched, or
/// the number of regions where there is none.
pub open spec fn next_searched(
    platform: Platform,
    flavor: RuntimeFlavor,
    regions: Seq<Candidate>,
    from: int,
) -> int
    decreases regions.len() - from,
{
    if from >= regions.len() {
        regions.len() as int
    } else if regions[from].is_searched(platform, flavor) {
        from
    } else {
        next_searched(platform, flavor, regions, from + 1)
    }
}

/// What the search for the GPIO area asks for next.
#[derive(Clone, Copy, Debug, PartialEq, Eq, Structural)]
pub enum SearchAction {
    /// Read `size` bytes at address `start` of the runtime's memory and hand
    /// them to `GpioSearch::resume`, or nothing if they cannot be read.
    Read { start: usize, size: usize },
    /// The GPIO area is found: the search is over.
    Connected(RuntimeConnection),
    /// No region is left: the runtime runs no cartridge that announces
    /// itself, or none yet. The search is over.
    NotEnabled(Pid),
}

/// The search of a runtime's memory for its GPIO area, region by region in
/// the order of the memory map. The first region in which the magic stands
/// decides; a region that cannot be read is passed over.
#[derive(Clone, Debug, PartialEq, Eq)]
pub struct GpioSearch {
    pub platform: Platform,
    pub pid: Pid,
    pub flavor: RuntimeFlavor,
    pub regions: Vec<Candidate>,
    /// The index of the region whose bytes are awaited; the number of
    /// regions once the search is over.
    pub cursor: usize,
}

impl GpioSearch {
    /// Whether the search awaits the bytes of a region.
    pub open spec fn is_awaiting(self) -> bool {
        self.cursor < self.regions@.len()
    }

    /// What the search asks for when it turns to the first searched region
    /// at or behind `from`.
    pub open spec fn action_from(self, from: int) -> SearchAction {
        let next = next_searched(self.platform, self.flavor, self.regions@, from);
        if next < self.regions@.len() {
            SearchAction::Read {
                start: self.regions@[next].region.start,
                size: self.regions@[next].region.size,
            }
        } else {
            SearchAction::NotEnabled(self.pid)
        }
    }

    fn advance(&mut self, from: usize) -> (action: SearchAction)
        requires
            from <= old(self).regions@.len(),
        ensures
            final(self).platform == old(self).platform,
            final(self).pid == old(self).pid,
            final(self).flavor == old(self).flavor,
            final(self).regions == old(self).regions,
            final(self).cursor == next_searched(
                old(self).platform,
                old(self).flavor,
                old(self).regions@,
                from as int,
            ),
            final(self).cursor <= old(self).regions@.len(),
            action == old(self).action_from(from as int),
            final(self).is_awaiting() ==> old(self).regions@[final(self).cursor as int].is_searched(
                old(self).platform,
                old(self).flavor,
            ),
    {
        let mut at = from;
        while at < self.regions.len()
            invariant
                from <= at <= self.regions@.len(),
                self.platform == old(self).platform,
                self.pid == old(self).pid,
                self.flavor == old(self).flavor,
                self.regions == old(self).regions,
                next_searched(self.platform, self.flavor, self.regions@, from as int)
                    == next_searched(self.platform, self.flavor, self.regions@, at as int),
            decreases self.regions@.len() - at,
        {
            let candidate = &self.regions[at];
            let info = match &candidate.info_plist {
                Some(info) => Some(info),
                None => None,
            };
            if is_data_segment(self.platform, self.flavor, &candidate.region, info) {
                self.cursor = at;
                return SearchAction::Read {
                    start: candidate.region.start,
                    size: candidate.region.size,
                };
            }
            at += 1;
        }
        self.cursor = at;
        SearchAction::NotEnabled(self.pid)
    }

    /// Begins the search of the memory of process `pid`, a runtime of this
    /// flavor, whose memory map holds these regions in this order.
    pub fn begin(
        platform: Platform,
        pid: Pid,
        flavor: RuntimeFlavor,
        regions: Vec<Candidate>,
    ) -> (begun: (Self, SearchAction))
        ensures
            begun.0.platform == platform,
            begun.0.pid == pid,
            begun.0.flavor == flavor,
            begun.0.regions == regions,
            begun.0.cursor == next_searched(platform, flavor, regions@, 0),
            begun.1 == begun.0.action_from(0),
            begun.0.is_awaiting() <==> begun.1 is Read,
    {
        let mut search = GpioSearch { platform, pid, flavor, regions, cursor: 0 };
        let action = search.advance(0);
        (search, action)
    }

    /// Takes the bytes read of the region that the search asked for, or
    /// nothing if they could not be read, and says what comes next: the
    /// connection where the magic stands in the bytes, else the next region
    /// to read, else that the search has failed. A search that is over
    /// stays over.
    pub fn resume(&mut self, data: Option<&[u8]>) -> (action: SearchAction)
        ensures
            final(self).platform == old(self).platform,
            final(self).pid == old(self).pid,
            final(self).flavor == old(self).flavor,
            final(self).regions == old(self).regions,
            !old(self).is_awaiting() ==> action == SearchAction::NotEnabled(old(self).pid)
                && final(self).cursor == old(self).cursor,
            old(self).is_awaiting() ==> match old(self).found_in(data) {
                Some(gpio_address) => {
                    &&& action == SearchAction::Connected(
                        RuntimeConnection {
                            pid: old(self).pid,
                            flavor: old(self).flavor,
                            gpio_address,
                        },
                    )
                    &&& final(self).cursor == old(self).regions@.len()
                },
                None => {
                    &&& action == old(self).action_from(old(self).cursor + 1)
                    &&& final(self).cursor == next_searched(
                        old(self).platform,
                        old(self).flavor,
                        old(self).regions@,
                        old(self).cursor + 1,
                    )
                },
            },
            final(self).is_awaiting() <==> action is Read,
    {
        let count = self.regions.len();
        if self.cursor >= count {
            return SearchAction::NotEnabled(self.pid);
        }
        let candidate = &self.regions[self.cursor];
        if let Some(bytes) = data {
            let within = if bytes.len() <= candidate.region.size {
                bytes
            } else {
                slice_subrange(bytes, 0, candidate.region.size)
            };
            if let Ok(offset) = find_pinput_magic(within) {
                proof {
                    let chosen = choose|at: int| first_occurrence(within@, magic_seq(), at);
                    lemma_first_occurrence_is_unique(within@, magic_seq(), chosen, offset as int);
                }
                if offset <= usize::MAX - candidate.region.start {
                    let connection = RuntimeConnection::new(
                        self.pid,
                        self.flavor,
                        candidate.region.start + offset,
                    );
                    self.cursor = count;
                    return SearchAction::Connected(connection);
                }
            }
        }
        let next = self.cursor + 1;
        self.advance(next)
    }

    /// Where the GPIO area lies if `data` is what was read of the awaited
    /// region; nowhere if nothing could be read or the magic is not in it.
    pub open spec fn found_in(self, data: Option<&[u8]>) -> Option<usize> {
        match data {
            Some(bytes) => self.regions@[self.cursor as int].gpio_in(bytes@),
            None => None,
        }
    }
}

/// What was read of region `i`: nothing where it could not be read, or was
/// not read at all.
pub open spec fn image_of(images: Seq<Option<Vec<u8>>>, i: int) -> Option<Seq<u8>> {
    if 0 <= i < images.len() {
        match images[i] {
            Some(bytes) => Some(bytes@),
            None => None,
        }
    } else {
        None
    }
}

/// Where the GPIO area lies, given what was read of each region: in the
/// first region at or behind `from` that is searched and in whose bytes the
/// magic stands.
pub open spec fn located(
    platform: Platform,
    flavor: RuntimeFlavor,
    regions: Seq<Candidate>,
    images: Seq<Option<Vec<u8>>>,
    from: int,
) -> Option<usize>
    decreases regions.len() - from,
{
    if from >= regions.len() {
        None
    } else if regions[from].is_searched(platform, flavor) && image_of(images, from) is Some
        && regions[from].gpio_in(image_of(images, from).unwrap()) is Some {
        regions[from].gpio_in(image_of(images, from).unwrap())
    } else {
        located(platform, flavor, regions, images, from + 1)
    }
}

proof fn lemma_located_skips(
    platform: Platform,
    flavor: RuntimeFlavor,
    regions: Seq<Candidate>,
    images: Seq<Option<Vec<u8>>>,
    from: int,
)
    requires
        0 <= from,
    ensures
        located(platform, flavor, regions, images, from) == located(
            platform,
            flavor,
            regions,
            images,
            next_searched(platform, flavor, regions, from),
        ),
        from <= regions.len() ==> from <= next_searched(platform, flavor, regions, from)
            <= regions.len(),
        next_searched(platform, flavor, regions, from) < regions.len() ==> regions[next_searched(
            platform,
            flavor,
            regions,
            from,
        )].is_searched(platform, flavor),
    decreases regions.len() - from,
{
    if from < regions.len() && !regions[from].is_searched(platform, flavor) {
        lemma_located_skips(platform, flavor, regions, images, from + 1);
    }
}

impl RuntimeConnection {
    /// Binds the runtime in process `pid` from a picture of its memory: the
    /// regions of its memory map in order, and for each what was read of
    /// it, or nothing where it was not or could not be read.
    ///
    /// The first region that is searched and holds the magic decides: the
    /// GPIO area begins where the magic first stands in it. Fails with
    /// `PinputNotEnabled` where there is no such region.
    pub fn try_new(
        platform: Platform,
        pid: Pid,
        flavor: RuntimeFlavor,
        regions: Vec<Candidate>,
        images: &Vec<Option<Vec<u8>>>,
    ) -> (bound: Result<Self, Error>)
        ensures
            match bound {
                Ok(connection) => located(platform, flavor, regions@, images@, 0) == Some(
                    connection.gpio_address,
                ) && connection.pid == pid && connection.flavor == flavor,
                Err(Error::PinputNotEnabled(process)) => located(
                    platform,
                    flavor,
                    regions@,
                    images@,
                    0,
                ) is None && process == pid,
                Err(_) => false,
            },
    {
        let ghost all = regions@;
        proof {
            lemma_located_skips(platform, flavor, all, images@, 0);
        }
        let (mut search, mut action) = GpioSearch::begin(platform, pid, flavor, regions);
        loop
            invariant
                search.platform == platform,
                search.pid == pid,
                search.flavor == flavor,
                all == regions@,
                search.regions@ == all,
                search.cursor <= all.len(),
                search.is_awaiting() <==> action is Read,
                search.is_awaiting() ==> located(platform, flavor, all, images@, 0) == located(
                    platform,
                    flavor,
                    all,
                    images@,
                    search.cursor as int,
                ) && all[search.cursor as int].is_searched(platform, flavor),
                match action {
                    SearchAction::Read { .. } => true,
                    SearchAction::Connected(connection) => {
                        &&& located(platform, flavor, all, images@, 0) == Some(
                            connection.gpio_address,
                        )
                        &&& connection.pid == pid
                        &&& connection.flavor == flavor
                    },
                    SearchAction::NotEnabled(process) => {
                        &&& located(platform, flavor, all, images@, 0) is None
                        &&& process == pid
                    },
                },
            decreases
                    if action is Read {
                        all.len() - search.cursor + 1
                    } else {
                        0
                    },
        {
            match action {
                SearchAction::Connected(connection) => {
                    return Ok(connection);
                },
                SearchAction::NotEnabled(process) => {
                    return Err(Error::PinputNotEnabled(process));
                },
                SearchAction::Read { .. } => {
                    let at = search.cursor;
                    let data: Option<&[u8]> = if at < images.len() {
                        match &images[at] {
                            Some(bytes) => Some(bytes.as_slice()),
                            None => None,
                        }
                    } else {
                        None
                    };
                    proof {
                        lemma_located_skips(platform, flavor, all, images@, at + 1);
                        assert(search.found_in(data) == match image_of(images@, at as int) {
                            Some(bytes) => all[at as int].gpio_in(bytes),
                            None => None,
                        });
                    }
                    action = search.resume(data);
                },
            }
        }
    }
}

} // verus!
