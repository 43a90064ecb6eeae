use vstd::prelude::*;

use crate::property::{decoded_property, read_property, PropertyKind};
use crate::report::{format_spec, DeviceRecord};

verus! {

/// The status code the operating system embeds in the error that ends a
/// device enumeration: "no more items", rendered as an HRESULT. Only this
/// code marks clean exhaustion; every other code is a real failure.
pub const NO_MORE_ITEMS: u32 = 0x8007_0103;

/// How one enumeration call can fail: cleanly, because the snapshot has no
/// entry at the requested index, or with a real error carrying its status
/// code and rendered message.
pub enum EnumError {
    NoMoreItems,
    Other { code: u32, message: String },
}

/// Classify an enumeration failure by its status code alone: exactly the
/// exhaustion sentinel reads as `NoMoreItems`; any other code keeps its
/// code and message as a real error.
pub fn classify_enum_status(code: u32, message: String) -> (e: EnumError)
    ensures
        e is NoMoreItems <==> code == NO_MORE_ITEMS,
        code != NO_MORE_ITEMS ==> (e matches EnumError::Other { code: c, message: m } && c == code
            && m@ == message@),
{
    if code == NO_MORE_ITEMS {
        EnumError::NoMoreItems
    } else {
        EnumError::Other { code, message }
    }
}

/// The process exit status the enumeration loop ends with on a failure:
/// zero exactly for clean exhaustion, one for everything else.
pub fn loop_exit_code(e: &EnumError) -> (c: i32)
    ensures
        c == 0 <==> e is NoMoreItems,
        c == 0 || c == 1,
{
    match e {
        EnumError::NoMoreItems => 0,
        EnumError::Other { .. } => 1,
    }
}

/// Everything the operating system answers about one device entry: its
/// class identifier, and the outcome of the two property queries made for
/// it — `None` where a query failed, the raw buffer where it succeeded.
pub struct EntryData {
    pub class_guid: u128,
    pub name_buf: Option<Vec<u8>>,
    pub desc_buf: Option<Vec<u8>>,
}

/// The report block that one entry's answers decode and format to.
pub open spec fn entry_block(e: EntryData) -> Seq<char> {
    format_spec(
        decoded_property(e.name_buf.deep_view()),
        decoded_property(e.desc_buf.deep_view()),
        e.class_guid,
    )
}

/// What one enumeration call answered: a device entry with its property
/// query outcomes, or a failure with its status code and rendered message.
pub enum EnumEvent {
    Found(EntryData),
    Failed { code: u32, message: String },
}

/// What the enumeration loop does in answer to one event: print a report
/// block and go on with the next index, finish cleanly with exit status
/// zero, or finish with the diagnostic line and exit status one.
pub enum StepAction {
    Print(String),
    FinishSuccess,
    FinishFailure(String),
}

/// Decide one turn of the enumeration loop. An entry is decoded and
/// formatted into its report block; a failure carrying the exhaustion
/// sentinel ends the run cleanly; any other failure ends it with a
/// diagnostic naming the error's message.
pub fn enumeration_step(event: &EnumEvent) -> (a: StepAction)
    ensures
        match event {
            EnumEvent::Found(e) => a matches StepAction::Print(s) && s@ == entry_block(*e),
            EnumEvent::Failed { code, message } => {
                if code == NO_MORE_ITEMS {
                    a is FinishSuccess
                } else {
                    a matches StepAction::FinishFailure(m) && m@ == "Error occurred: "@
                        + message@
                }
            },
        },
{
    match event {
        EnumEvent::Found(entry) => {
            let record = DeviceRecord {
                friendly_name: read_property(PropertyKind::FriendlyName, &entry.name_buf),
                description: read_property(PropertyKind::Description, &entry.desc_buf),
                class_guid: entry.class_guid,
            };
            StepAction::Print(record.format())
        },
        EnumEvent::Failed { code, message } => {
            match classify_enum_status(*code, message.clone()) {
                EnumError::NoMoreItems => StepAction::FinishSuccess,
                EnumError::Other { code: _, message: m } => {
                    let diagnostic = String::from_str("Error occurred: ").concat(m.as_str());
                    StepAction::FinishFailure(diagnostic)
                },
            }
        },
    }
}

/// A snapshot of the devices present on the host: the finite run of
/// entries that indexed enumeration walks, in the order the operating
/// system hands them out.
pub struct Snapshot {
    pub entries: Vec<EntryData>,
}

/// What the enumerator answers at a given index: the entry where one
/// exists, the exhaustion sentinel everywhere past the end.
pub open spec fn next_entry_spec(s: Snapshot, index: int) -> Result<EntryData, EnumError> {
    if 0 <= index < s.entries.len() {
        Ok(s.entries[index])
    } else {
        Err(EnumError::NoMoreItems)
    }
}

/// Enumeration terminates: every index at or past the entry count of a
/// snapshot is answered with the exhaustion sentinel, never with another
/// entry, so a caller walking strictly increasing indices from zero
/// reaches the sentinel after exactly as many steps as there are entries.
pub proof fn lemma_enumeration_exhausts(s: Snapshot, index: int)
    requires
        index >= s.entries.len(),
    ensures
        next_entry_spec(s, index) == Err::<EntryData, EnumError>(EnumError::NoMoreItems),
{
}

impl Snapshot {
    /// Fetch the entry at `index`, answering as `next_entry_spec` says:
    /// the entry while one remains, the exhaustion sentinel from the entry
    /// count onward.
    pub fn next_entry(&self, index: usize) -> (r: Result<&EntryData, EnumError>)
        ensures
            index < self.entries@.len() ==> (r matches Ok(e) && *e == self.entries@[index as int]),
            index >= self.entries@.len() ==> (r matches Err(e) && e is NoMoreItems),
    {
        if index < self.entries.len() {
            Ok(&self.entries[index])
        } else {
            Err(EnumError::NoMoreItems)
        }
    }

    /// Walk the whole snapshot from index zero until the sentinel and
    /// render one report block per entry, in enumeration order.
    pub fn report_all(&self) -> (out: Vec<String>)
        ensures
            out@.len() == self.entries@.len(),
            forall|i: int| 0 <= i < out@.len() ==> out@[i]@ == entry_block(self.entries@[i]),
    {
        let mut out: Vec<String> = Vec::new();
        let mut index: usize = 0;
        loop
            invariant_except_break
                index <= self.entries@.len(),
                out@.len() == index,
                forall|i: int| 0 <= i < index ==> out@[i]@ == entry_block(self.entries@[i]),
            ensures
                out@.len() == self.entries@.len(),
                forall|i: int| 0 <= i < out@.len() ==> out@[i]@ == entry_block(self.entries@[i]),
            decreases self.entries@.len() - index,
        {
            match self.next_entry(index) {
                Ok(entry) => {
                    proof {
                        // an entry came back, so index is below the entry
                        // count, which itself fits in usize
                        assert(self.entries@.len() == self.entries.len());
                        assert(index < self.entries@.len());
                    }
                    let record = DeviceRecord {
                        friendly_name: read_property(PropertyKind::FriendlyName, &entry.name_buf),
                        description: read_property(PropertyKind::Description, &entry.desc_buf),
                        class_guid: entry.class_guid,
                    };
                    out.push(record.format());
                    index = index + 1;
                },
                Err(_) => {
                    break;
                },
            }
        }
        out
    }
}

} // verus!
