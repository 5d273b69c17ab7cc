//! Audio worklet extensions: transporting data to an audio worklet
//! processor through `AudioWorkletNodeOptions.processorOptions`, and
//! converting names to code points for worklets without `TextDecoder`.

use vstd::prelude::*;

use crate::thread::global::ThreadError;

verus! {

/// The Unicode code points of `name`, one per character, for building a
/// `JsString` without `TextDecoder`.
pub fn code_points(name: &str) -> (points: Vec<u32>)
    ensures
        points@.len() == name@.len(),
        forall|i: int| 0 <= i < name@.len() ==> points@[i] == name@[i] as u32,
{
    let len = name.unicode_len();
    let mut points: Vec<u32> = Vec::new();
    let mut i: usize = 0;
    while i < len
        invariant
            len == name@.len(),
            i <= len,
            points@.len() == i,
            forall|j: int| 0 <= j < i ==> points@[j] == name@[j] as u32,
        decreases len - i,
    {
        let c = name.get_char(i);
        points.push(c as u32);
        i = i + 1;
    }
    points
}

/// Property to delete once the data arrived or the node was created.
#[derive(Clone, Copy, Debug, PartialEq, Eq, Structural)]
pub enum PropertyRemoval {
    /// `AudioWorkletNodeOptions.processorOptions` as a whole: it only
    /// carried our data.
    ProcessorOptions,
    /// Only our data property on `processorOptions`.
    DataProperty,
}

/// How the options of a new `AudioWorkletNode` carry our data.
#[derive(Clone, Copy, Debug, PartialEq, Eq, Structural)]
pub struct NodeOptionsPlan {
    /// Create an empty options object: the caller gave none.
    pub create_options: bool,
    /// Create `processorOptions` and set it on the options: they had none.
    pub set_processor_options: bool,
    /// The `processorOptions` were empty before (recorded in the data).
    pub empty: bool,
    /// What to delete again after the node was created, so the caller's
    /// options are left as they were.
    pub cleanup: PropertyRemoval,
}

/// Plans the options of a new `AudioWorkletNode`: `processorOptions` set by
/// the caller are never overwritten, our data is only added to them.
pub fn node_options_plan(options_given: bool, has_processor_options: bool) -> (plan: NodeOptionsPlan)
    ensures
        plan.create_options == !options_given,
        plan.set_processor_options == !has_processor_options,
        plan.empty == !has_processor_options,
        plan.cleanup == (if has_processor_options {
            PropertyRemoval::DataProperty
        } else {
            PropertyRemoval::ProcessorOptions
        }),
{
    NodeOptionsPlan {
        create_options: !options_given,
        set_processor_options: !has_processor_options,
        empty: !has_processor_options,
        cleanup: if has_processor_options {
            PropertyRemoval::DataProperty
        } else {
            PropertyRemoval::ProcessorOptions
        },
    }
}

/// Error of creating an `AudioWorkletNode`: the data handed to it comes
/// back with the exception.
#[derive(Debug)]
pub struct AudioWorkletNodeError<D, E> {
    /// The data that was to be handed to the processor.
    pub data: D,
    /// The exception.
    pub error: ThreadError<E>,
}

/// Result of `audio_worklet_node()`: the node, or the data back with the
/// exception if the browser refused to create it (the data was then never
/// transmitted).
pub fn node_result<N, D, E>(created: Result<N, E>, data: D) -> (result: Result<N, AudioWorkletNodeError<D, E>>)
    ensures
        match created {
            Ok(n) => result == Ok::<N, AudioWorkletNodeError<D, E>>(n),
            Err(e) => result == Err::<N, AudioWorkletNodeError<D, E>>(
                AudioWorkletNodeError { data, error: ThreadError::Exception(e) },
            ),
        },
{
    match created {
        Ok(node) => Ok(node),
        Err(error) => Err(AudioWorkletNodeError { data, error: ThreadError::Exception(error) }),
    }
}

/// What becomes of the data found in the options of a processor being
/// constructed.
#[derive(Clone, Copy, Debug, PartialEq, Eq, Structural)]
pub enum ProcessorData {
    /// No data: no `processorOptions`, or no data property on them.
    Absent,
    /// Data for another processor type: it is dropped, the processor gets
    /// none.
    Mismatched,
    /// Data for this processor type: it is handed over and this property is
    /// deleted so the caller does not see it.
    Delivered(PropertyRemoval),
}

/// Decides about the data in the options of a processor being constructed:
/// `key_count` is the number of keys of `processorOptions`.
pub fn processor_data(has_processor_options: bool, data_present: bool, type_matches: bool, key_count: u32) -> (decision: ProcessorData)
    ensures
        !(has_processor_options && data_present) ==> decision == ProcessorData::Absent,
        has_processor_options && data_present && !type_matches ==> decision == ProcessorData::Mismatched,
        has_processor_options && data_present && type_matches ==> decision == ProcessorData::Delivered(
            if key_count == 1 {
                PropertyRemoval::ProcessorOptions
            } else {
                PropertyRemoval::DataProperty
            },
        ),
{
    if !(has_processor_options && data_present) {
        ProcessorData::Absent
    } else if !type_matches {
        ProcessorData::Mismatched
    } else if key_count == 1 {
        ProcessorData::Delivered(PropertyRemoval::ProcessorOptions)
    } else {
        ProcessorData::Delivered(PropertyRemoval::DataProperty)
    }
}

/// Name of a processor as handed to `registerProcessor()`: as a string
/// where `TextDecoder` exists, else as code points.
#[derive(Debug)]
pub enum ProcessorName {
    /// Converted by the browser's `TextDecoder`.
    Text(String),
    /// Built from code points.
    CodePoints(Vec<u32>),
}

/// Converts the name of a processor for `registerProcessor()`.
pub fn processor_name(name: &str, has_text_decoder: bool) -> (converted: ProcessorName)
    ensures
        has_text_decoder ==> (converted matches ProcessorName::Text(s) && s@ == name@),
        !has_text_decoder ==> (converted matches ProcessorName::CodePoints(points)
            && points@.len() == name@.len()
            && forall|i: int| 0 <= i < name@.len() ==> points@[i] == name@[i] as u32),
{
    if has_text_decoder {
        ProcessorName::Text(String::from_str(name))
    } else {
        ProcessorName::CodePoints(code_points(name))
    }
}

/// Result of `registerProcessor()`: the exception is passed on.
pub fn register_processor_result<E>(registered: Result<(), E>) -> (result: Result<(), ThreadError<E>>)
    ensures
        match registered {
            Ok(()) => result is Ok,
            Err(e) => result == Err::<(), ThreadError<E>>(ThreadError::Exception(e)),
        },
{
    match registered {
        Ok(()) => Ok(()),
        Err(error) => Err(ThreadError::Exception(error)),
    }
}

} // verus!
