//! The bus scan as a state machine.
//!
//! The scanner names the next configuration address to read; the caller
//! performs the two-port read and feeds the dword back. Each fed dword moves
//! the scan on and, once all three dwords of a present function are in,
//! yields a record for it. Buses 0..=255, slots 0..=31 and functions 0..=7
//! are visited in that nested order; functions 1..=7 of a slot are skipped
//! when function 0 is absent or does not set the multifunction bit.
use vstd::prelude::*;
use crate::address::{address_word, config_address};
use crate::registers::{
    byte2, decode_identity, header_type_multifunction, word_device, word_vendor, ClassCode, HeaderInfo,
    CLASS_CODE_OFFSET, HEADER_INFO_OFFSET, IDENTITY_OFFSET, NO_VENDOR,
};

verus! {

/// Which dword of the current function is read next, with what the
/// earlier dwords of that function held.
#[derive(Clone, Copy, Debug, PartialEq, Eq, Structural)]
pub enum ReadStage {
    Identity,
    Class { vendor: u16, device: u16 },
    Header { vendor: u16, device: u16, class: ClassCode },
}

/// One present function, as the scan found it.
#[derive(Clone, Copy, Debug, PartialEq, Eq, Structural)]
pub struct PciFunctionRecord {
    pub bus: u8,
    pub slot: u8,
    pub function: u8,
    pub vendor: u16,
    pub device: u16,
    pub class: u8,
    pub subclass: u8,
    pub prog_if: u8,
    pub revision: u8,
    pub header_type: u8,
}

/// Where the scan stands: the function being probed and the dword read next.
#[derive(Clone, Copy, Debug, PartialEq, Eq, Structural)]
pub struct ScanState {
    pub bus: u8,
    pub slot: u8,
    pub function: u8,
    pub stage: ReadStage,
    pub finished: bool,
}

impl ScanState {
    pub open spec fn wf(self) -> bool {
        self.slot <= 31 && self.function <= 7
    }

    pub open spec fn initial() -> ScanState {
        ScanState { bus: 0, slot: 0, function: 0, stage: ReadStage::Identity, finished: false }
    }

    pub open spec fn read_offset(self) -> u8 {
        match self.stage {
            ReadStage::Identity => IDENTITY_OFFSET,
            ReadStage::Class { .. } => CLASS_CODE_OFFSET,
            ReadStage::Header { .. } => HEADER_INFO_OFFSET,
        }
    }

    /// The address word of the next configuration read.
    pub open spec fn read_address(self) -> u32 {
        address_word(self.bus, self.slot, self.function, self.read_offset())
    }

    /// Function 0 of the next slot, or the end after slot 31 of bus 255.
    pub open spec fn next_slot(self) -> ScanState {
        if self.slot < 31 {
            ScanState { slot: (self.slot + 1) as u8, function: 0, stage: ReadStage::Identity, ..self }
        } else if self.bus < 255 {
            ScanState {
                bus: (self.bus + 1) as u8,
                slot: 0,
                function: 0,
                stage: ReadStage::Identity,
                ..self
            }
        } else {
            ScanState { finished: true, ..self }
        }
    }

    /// Where the scan goes once the current function is done; `slot_has_more`
    /// tells whether function 0 was present with the multifunction bit set.
    pub open spec fn after_function(self, slot_has_more: bool) -> ScanState {
        if self.function == 0 && !slot_has_more {
            self.next_slot()
        } else if self.function < 7 {
            ScanState { function: (self.function + 1) as u8, stage: ReadStage::Identity, ..self }
        } else {
            self.next_slot()
        }
    }

    /// The state after the dword at `read_address()` turned out to be `value`.
    pub open spec fn step(self, value: u32) -> ScanState {
        match self.stage {
            ReadStage::Identity => if word_vendor(value) == NO_VENDOR {
                self.after_function(false)
            } else {
                ScanState {
                    stage: ReadStage::Class { vendor: word_vendor(value), device: word_device(value) },
                    ..self
                }
            },
            ReadStage::Class { vendor, device } => ScanState {
                stage: ReadStage::Header { vendor, device, class: ClassCode::spec_from_word(value) },
                ..self
            },
            ReadStage::Header { .. } => self.after_function(
                header_type_multifunction(byte2(value)),
            ),
        }
    }

    /// The record that feeding `value` completes, if any.
    pub open spec fn output(self, value: u32) -> Option<PciFunctionRecord> {
        match self.stage {
            ReadStage::Header { vendor, device, class } => Some(
                PciFunctionRecord {
                    bus: self.bus,
                    slot: self.slot,
                    function: self.function,
                    vendor,
                    device,
                    class: class.class,
                    subclass: class.subclass,
                    prog_if: class.prog_if,
                    revision: class.revision,
                    header_type: byte2(value),
                },
            ),
            _ => None,
        }
    }
}

/// Drives one scan of the whole configuration space.
pub struct PciScanner {
    state: ScanState,
}

impl View for PciScanner {
    type V = ScanState;

    closed spec fn view(&self) -> ScanState {
        self.state
    }
}

impl PciScanner {
    #[verifier::type_invariant]
    spec fn inv(self) -> bool {
        self.state.wf()
    }

    /// A scan that starts at function 0 of slot 0 of bus 0.
    pub fn new() -> (r: PciScanner)
        ensures
            r@ == ScanState::initial(),
    {
        PciScanner {
            state: ScanState {
                bus: 0,
                slot: 0,
                function: 0,
                stage: ReadStage::Identity,
                finished: false,
            },
        }
    }

    pub fn state(&self) -> (r: ScanState)
        ensures
            r == self@,
            r.wf(),
    {
        proof {
            use_type_invariant(self);
        }
        self.state
    }

    pub fn is_finished(&self) -> (r: bool)
        ensures
            r == self@.finished,
    {
        self.state.finished
    }

    /// The address word to write to the address port before the next read of
    /// the data port, or `None` once the scan is over.
    pub fn next_read(&self) -> (r: Option<u32>)
        ensures
            r == (if self@.finished { None } else { Some(self@.read_address()) }),
    {
        proof {
            use_type_invariant(self);
        }
        if self.state.finished {
            return None;
        }
        let offset = match self.state.stage {
            ReadStage::Identity => IDENTITY_OFFSET,
            ReadStage::Class { .. } => CLASS_CODE_OFFSET,
            ReadStage::Header { .. } => HEADER_INFO_OFFSET,
        };
        Some(config_address(self.state.bus, self.state.slot, self.state.function, offset))
    }

    fn finish_function(&mut self, slot_has_more: bool)
        ensures
            final(self)@ == old(self)@.after_function(slot_has_more),
    {
        proof {
            use_type_invariant(&*self);
        }
        if self.state.function < 7 && (self.state.function > 0 || slot_has_more) {
            self.state.function = self.state.function + 1;
            self.state.stage = ReadStage::Identity;
        } else if self.state.slot < 31 {
            self.state.slot = self.state.slot + 1;
            self.state.function = 0;
            self.state.stage = ReadStage::Identity;
        } else if self.state.bus < 255 {
            self.state.bus = self.state.bus + 1;
            self.state.slot = 0;
            self.state.function = 0;
            self.state.stage = ReadStage::Identity;
        } else {
            self.state.finished = true;
        }
    }

    /// Takes the dword read at the address `next_read` gave, and returns the
    /// record it completes, if any.
    pub fn feed(&mut self, value: u32) -> (r: Option<PciFunctionRecord>)
        requires
            !old(self)@.finished,
        ensures
            final(self)@ == old(self)@.step(value),
            r == old(self)@.output(value),
    {
        proof {
            use_type_invariant(&*self);
        }
        match self.state.stage {
            ReadStage::Identity => {
                match decode_identity(value) {
                    None => self.finish_function(false),
                    Some((vendor, device)) => {
                        self.state.stage = ReadStage::Class { vendor, device };
                    },
                }
                None
            },
            ReadStage::Class { vendor, device } => {
                let class = ClassCode::from_word(value);
                self.state.stage = ReadStage::Header { vendor, device, class };
                None
            },
            ReadStage::Header { vendor, device, class } => {
                let header = HeaderInfo::from_word(value);
                let record = PciFunctionRecord {
                    bus: self.state.bus,
                    slot: self.state.slot,
                    function: self.state.function,
                    vendor,
                    device,
                    class: class.class,
                    subclass: class.subclass,
                    prog_if: class.prog_if,
                    revision: class.revision,
                    header_type: header.header_type,
                };
                self.finish_function(header.is_multifunction());
                Some(record)
            },
        }
    }
}

/// The state after `n` reads, when the dword read at each address word `w`
/// is `space(w)`.
pub open spec fn scan_after(space: spec_fn(u32) -> u32, n: nat) -> ScanState
    decreases n,
{
    if n == 0 {
        ScanState::initial()
    } else {
        let s = scan_after(space, (n - 1) as nat);
        if s.finished {
            s
        } else {
            s.step(space(s.read_address()))
        }
    }
}

/// Whether something answers at function `function` of `slot` on `bus`.
pub open spec fn function_present(space: spec_fn(u32) -> u32, bus: u8, slot: u8, function: u8) -> bool {
    word_vendor(space(address_word(bus, slot, function, IDENTITY_OFFSET))) != NO_VENDOR
}

/// Whether the header type of that function sets the multifunction bit.
pub open spec fn function_multifunction(
    space: spec_fn(u32) -> u32,
    bus: u8,
    slot: u8,
    function: u8,
) -> bool {
    header_type_multifunction(byte2(space(address_word(bus, slot, function, HEADER_INFO_OFFSET))))
}

/// What the scan holds about the function it stands at agrees with `space`.
pub open spec fn agrees_with(space: spec_fn(u32) -> u32, s: ScanState) -> bool {
    let identity = space(address_word(s.bus, s.slot, s.function, IDENTITY_OFFSET));
    let class_word = space(address_word(s.bus, s.slot, s.function, CLASS_CODE_OFFSET));
    &&& s.wf()
    &&& !s.finished && s.function > 0 ==> function_present(space, s.bus, s.slot, 0)
        && function_multifunction(space, s.bus, s.slot, 0)
    &&& !s.finished ==> match s.stage {
        ReadStage::Identity => true,
        ReadStage::Class { vendor, device } => vendor == word_vendor(identity) && device
            == word_device(identity) && vendor != NO_VENDOR,
        ReadStage::Header { vendor, device, class } => vendor == word_vendor(identity)
            && device == word_device(identity) && vendor != NO_VENDOR && class
            == ClassCode::spec_from_word(class_word),
    }
}

proof fn lemma_scan_agrees(space: spec_fn(u32) -> u32, n: nat)
    ensures
        agrees_with(space, scan_after(space, n)),
    decreases n,
{
    if n > 0 {
        lemma_scan_agrees(space, (n - 1) as nat);
    }
}

/// When nothing answers at function 0 of a slot, no other function of that
/// slot is ever probed.
pub proof fn lemma_absent_slot_is_skipped(space: spec_fn(u32) -> u32, n: nat, bus: u8, slot: u8)
    requires
        !function_present(space, bus, slot, 0),
    ensures
        ({
            let s = scan_after(space, n);
            !s.finished && s.bus == bus && s.slot == slot ==> s.function == 0
        }),
{
    lemma_scan_agrees(space, n);
}

/// When function 0 of a slot does not set the multifunction bit, no other
/// function of that slot is ever probed.
pub proof fn lemma_single_function_slot_is_skipped(
    space: spec_fn(u32) -> u32,
    n: nat,
    bus: u8,
    slot: u8,
)
    requires
        !function_multifunction(space, bus, slot, 0),
    ensures
        ({
            let s = scan_after(space, n);
            !s.finished && s.bus == bus && s.slot == slot ==> s.function == 0
        }),
{
    lemma_scan_agrees(space, n);
}

/// Once the scan reaches a slot whose function 0 is present and sets the
/// multifunction bit, it probes each of the slot's eight functions, present
/// or not.
pub proof fn lemma_multifunction_slot_probes_all(space: spec_fn(u32) -> u32, n: nat, function: u8)
    requires
        !scan_after(space, n).finished,
        scan_after(space, n).function == 0,
        scan_after(space, n).stage == ReadStage::Identity,
        function_present(space, scan_after(space, n).bus, scan_after(space, n).slot, 0),
        function_multifunction(space, scan_after(space, n).bus, scan_after(space, n).slot, 0),
        function <= 7,
    ensures
        exists|m: nat|
            m >= n && scan_after(space, m) == (ScanState {
                function: function,
                ..scan_after(space, n)
            }),
    decreases function,
{
    let s0 = scan_after(space, n);
    if function == 0 {
        assert(scan_after(space, n) == (ScanState { function: 0, ..s0 }));
    } else {
        let f = (function - 1) as u8;
        lemma_multifunction_slot_probes_all(space, n, f);
        let m = choose|m: nat| m >= n && scan_after(space, m) == (ScanState { function: f, ..s0 });
        let s = scan_after(space, m);
        let target = ScanState { function: function, ..s0 };
        assert(scan_after(space, m + 1) == s.step(space(s.read_address())));
        if function_present(space, s.bus, s.slot, f) {
            let s1 = scan_after(space, m + 1);
            assert(scan_after(space, m + 2) == s1.step(space(s1.read_address())));
            let s2 = scan_after(space, m + 2);
            assert(scan_after(space, m + 3) == s2.step(space(s2.read_address())));
            assert(scan_after(space, m + 3) == target);
        } else {
            assert(scan_after(space, m + 1) == target);
        }
    }
}

/// A record comes out exactly when the header dword of a present function is
/// read, and it holds what that function's three dwords hold.
pub proof fn lemma_records_match_space(space: spec_fn(u32) -> u32, n: nat)
    ensures
        ({
            let s = scan_after(space, n);
            !s.finished ==> match s.output(space(s.read_address())) {
                Some(r) => {
                    let class = ClassCode::spec_from_word(
                        space(address_word(r.bus, r.slot, r.function, CLASS_CODE_OFFSET)),
                    );
                    &&& s.read_offset() == HEADER_INFO_OFFSET
                    &&& r.bus == s.bus && r.slot == s.slot && r.function == s.function
                    &&& function_present(space, r.bus, r.slot, r.function)
                    &&& r.vendor == word_vendor(
                        space(address_word(r.bus, r.slot, r.function, IDENTITY_OFFSET)),
                    )
                    &&& r.device == word_device(
                        space(address_word(r.bus, r.slot, r.function, IDENTITY_OFFSET)),
                    )
                    &&& r.class == class.class && r.subclass == class.subclass
                    &&& r.prog_if == class.prog_if && r.revision == class.revision
                    &&& r.header_type == byte2(
                        space(address_word(r.bus, r.slot, r.function, HEADER_INFO_OFFSET)),
                    )
                },
                None => s.read_offset() != HEADER_INFO_OFFSET,
            }
        }),
{
    lemma_scan_agrees(space, n);
}

pub open spec fn stage_rank(stage: ReadStage) -> int {
    match stage {
        ReadStage::Identity => 0,
        ReadStage::Class { .. } => 1,
        ReadStage::Header { .. } => 2,
    }
}

/// How many reads the scan can still take at most.
pub open spec fn reads_left(s: ScanState) -> int {
    if s.finished {
        0
    } else {
        (((255 - s.bus) * 32 + (31 - s.slot)) * 8 + (7 - s.function)) * 3 + 3 - stage_rank(s.stage)
    }
}

/// Each read brings the scan strictly closer to its end.
pub proof fn lemma_step_progress(s: ScanState, value: u32)
    requires
        s.wf(),
        !s.finished,
    ensures
        s.step(value).wf(),
        0 <= reads_left(s.step(value)) < reads_left(s),
{
}

/// Whatever the configuration space holds, the scan is over after at most
/// 3 * 256 * 32 * 8 reads.
pub proof fn lemma_scan_terminates(space: spec_fn(u32) -> u32)
    ensures
        scan_after(space, 3 * 256 * 32 * 8).finished,
{
    lemma_reads_left_bound(space, 3 * 256 * 32 * 8);
}

proof fn lemma_reads_left_bound(space: spec_fn(u32) -> u32, n: nat)
    ensures
        scan_after(space, n).wf(),
        scan_after(space, n).finished || reads_left(scan_after(space, n)) + n <= 3 * 256 * 32 * 8,
    decreases n,
{
    if n > 0 {
        lemma_reads_left_bound(space, (n - 1) as nat);
        let s = scan_after(space, (n - 1) as nat);
        if !s.finished {
            lemma_step_progress(s, space(s.read_address()));
        }
    }
}

/// The scan standing at function 0 of `slot` on `bus`, about to read its
/// identity dword.
pub open spec fn slot_start(bus: u8, slot: u8) -> ScanState {
    ScanState { bus, slot, function: 0, stage: ReadStage::Identity, finished: false }
}

/// The slot the scan visits after `slot` on `bus`, if any.
pub open spec fn following_slot(bus: u8, slot: u8) -> Option<(u8, u8)> {
    if slot < 31 {
        Some((bus, (slot + 1) as u8))
    } else if bus < 255 {
        Some(((bus + 1) as u8, 0))
    } else {
        None
    }
}

/// `s` is where the scan stands once it is done with `slot` on `bus`.
pub open spec fn past_slot(s: ScanState, bus: u8, slot: u8) -> bool {
    match following_slot(bus, slot) {
        Some((b, sl)) => s == slot_start(b, sl),
        None => s.finished,
    }
}

/// From anywhere in a slot the scan goes on to the start of the following
/// slot, or ends after the last one.
proof fn lemma_leaves_slot(space: spec_fn(u32) -> u32, n: nat)
    requires
        !scan_after(space, n).finished,
    ensures
        exists|m: nat|
            m > n && past_slot(
                #[trigger] scan_after(space, m),
                scan_after(space, n).bus,
                scan_after(space, n).slot,
            ),
    decreases reads_left(scan_after(space, n)),
{
    let s = scan_after(space, n);
    lemma_reads_left_bound(space, n);
    lemma_step_progress(s, space(s.read_address()));
    let t = scan_after(space, n + 1);
    assert(t == s.step(space(s.read_address())));
    if !t.finished && t.bus == s.bus && t.slot == s.slot {
        lemma_leaves_slot(space, n + 1);
        let m = choose|m: nat| m > n + 1 && past_slot(#[trigger] scan_after(space, m), t.bus, t.slot);
        assert(m > n && past_slot(scan_after(space, m), s.bus, s.slot));
    } else {
        assert(past_slot(scan_after(space, n + 1), s.bus, s.slot));
    }
}

/// Whatever the configuration space holds, the scan reaches function 0 of
/// every slot on every bus and reads its identity dword.
pub proof fn lemma_every_slot_is_probed(space: spec_fn(u32) -> u32, bus: u8, slot: u8)
    requires
        slot <= 31,
    ensures
        exists|n: nat|
            scan_after(space, n) == slot_start(bus, slot) && #[trigger] scan_after(
                space,
                n,
            ).read_address() == address_word(bus, slot, 0, IDENTITY_OFFSET),
    decreases bus * 32 + slot,
{
    if bus == 0 && slot == 0 {
        assert(scan_after(space, 0) == slot_start(0, 0) && scan_after(space, 0).read_address()
            == address_word(0, 0, 0, IDENTITY_OFFSET));
    } else {
        let (pb, ps) = if slot > 0 {
            (bus, (slot - 1) as u8)
        } else {
            ((bus - 1) as u8, 31u8)
        };
        lemma_every_slot_is_probed(space, pb, ps);
        let n = choose|n: nat|
            scan_after(space, n) == slot_start(pb, ps) && #[trigger] scan_after(
                space,
                n,
            ).read_address() == address_word(pb, ps, 0, IDENTITY_OFFSET);
        assert(following_slot(pb, ps) == Some((bus, slot)));
        lemma_leaves_slot(space, n);
        let m = choose|m: nat| m > n && past_slot(#[trigger] scan_after(space, m), pb, ps);
        assert(scan_after(space, m) == slot_start(bus, slot));
        assert(scan_after(space, m).read_address() == address_word(bus, slot, 0, IDENTITY_OFFSET));
    }
}

} // verus!
