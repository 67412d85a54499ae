//! Encoder backends: which ones a host has and which one a session takes.

use crate::codec::{CodecId, HostPlatform};
use vstd::prelude::*;

verus! {

/// A way of encoding video on the host.
#[derive(Debug, Clone, Copy, PartialEq, Eq, Structural)]
pub enum EncoderBackend {
    Nvenc,
    Amf,
    Qsv,
    MediaFoundation,
    Software,
}

/// The backends that can encode one codec.
#[derive(Debug, Clone)]
pub struct EncoderCapability {
    pub codec: CodecId,
    pub backends: Vec<EncoderBackend>,
}

/// The order in which backends are tried.
pub open spec fn priority_order() -> Seq<EncoderBackend> {
    seq![
        EncoderBackend::Nvenc,
        EncoderBackend::Amf,
        EncoderBackend::Qsv,
        EncoderBackend::MediaFoundation,
        EncoderBackend::Software,
    ]
}

/// The backends a host on `platform` is taken to have.
pub open spec fn backends_of(platform: HostPlatform) -> Seq<EncoderBackend> {
    match platform {
        HostPlatform::Windows => priority_order(),
        _ => seq![EncoderBackend::Software],
    }
}

/// The first backend of `order`, from position `from` on, that `available`
/// holds; the software encoder where it holds none of them.
pub open spec fn first_available(
    order: Seq<EncoderBackend>,
    available: Seq<EncoderBackend>,
    from: int,
) -> EncoderBackend
    decreases order.len() - from,
{
    if from < 0 || from >= order.len() {
        EncoderBackend::Software
    } else if available.contains(order[from]) {
        order[from]
    } else {
        first_available(order, available, from + 1)
    }
}

/// The backend a session takes: the preferred one where the host has it,
/// else the first of the priority order that the host has.
pub open spec fn chosen_backend(
    available: Seq<EncoderBackend>,
    preferred: Option<EncoderBackend>,
) -> EncoderBackend {
    match preferred {
        Some(choice) if available.contains(choice) => choice,
        _ => first_available(priority_order(), available, 0),
    }
}

/// The backends that the host has.
pub fn detect_backends(platform: HostPlatform) -> (backends: Vec<EncoderBackend>)
    ensures
        backends@ == backends_of(platform),
{
    match platform {
        HostPlatform::Windows => backend_priority(),
        _ => {
            let mut backends: Vec<EncoderBackend> = Vec::new();
            backends.push(EncoderBackend::Software);
            assert(backends@ =~= backends_of(platform));
            backends
        },
    }
}

/// The order in which backends are tried, hardware first.
pub fn backend_priority() -> (order: Vec<EncoderBackend>)
    ensures
        order@ == priority_order(),
{
    let mut order: Vec<EncoderBackend> = Vec::new();
    order.push(EncoderBackend::Nvenc);
    order.push(EncoderBackend::Amf);
    order.push(EncoderBackend::Qsv);
    order.push(EncoderBackend::MediaFoundation);
    order.push(EncoderBackend::Software);
    assert(order@ =~= priority_order());
    order
}

/// Whether `list` holds `backend`.
pub fn has_backend(list: &Vec<EncoderBackend>, backend: EncoderBackend) -> (found: bool)
    ensures
        found == list@.contains(backend),
{
    let mut i: usize = 0;
    while i < list.len()
        invariant
            i <= list.len(),
            forall|k: int| 0 <= k < i ==> list@[k] != backend,
        decreases list.len() - i,
    {
        if list[i] == backend {
            return true;
        }
        i += 1;
    }
    false
}

/// Chooses among `available`: the preferred backend where it is there,
/// else the first of the priority order that is, else the software encoder.
pub fn select_from(available: &Vec<EncoderBackend>, preferred: Option<EncoderBackend>) -> (backend:
    EncoderBackend)
    ensures
        backend == chosen_backend(available@, preferred),
{
    if let Some(choice) = preferred {
        if has_backend(available, choice) {
            return choice;
        }
    }
    let order = backend_priority();
    let mut i: usize = 0;
    while i < order.len()
        invariant
            i <= order.len(),
            order@ == priority_order(),
            chosen_backend(available@, preferred) == first_available(
                priority_order(),
                available@,
                i as int,
            ),
        decreases order.len() - i,
    {
        assert(priority_order()[i as int] == order@[i as int]);
        if has_backend(available, order[i]) {
            assert(first_available(priority_order(), available@, i as int) == order@[i as int]);
            return order[i];
        }
        assert(first_available(priority_order(), available@, i as int) == first_available(
            priority_order(),
            available@,
            i + 1,
        ));
        i += 1;
    }
    EncoderBackend::Software
}

/// The backend a session on `platform` takes.
pub fn select_backend(platform: HostPlatform, preferred: Option<EncoderBackend>) -> (backend:
    EncoderBackend)
    ensures
        backend == chosen_backend(backends_of(platform), preferred),
{
    let available = detect_backends(platform);
    select_from(&available, preferred)
}

/// The name of a backend as it is reported.
pub open spec fn backend_label(backend: EncoderBackend) -> Seq<char> {
    match backend {
        EncoderBackend::Nvenc => "Nvenc"@,
        EncoderBackend::Amf => "Amf"@,
        EncoderBackend::Qsv => "Qsv"@,
        EncoderBackend::MediaFoundation => "MediaFoundation"@,
        EncoderBackend::Software => "Software"@,
    }
}

/// The name of a backend as it is reported.
pub fn backend_name(backend: EncoderBackend) -> (name: &'static str)
    ensures
        name@ == backend_label(backend),
{
    match backend {
        EncoderBackend::Nvenc => "Nvenc",
        EncoderBackend::Amf => "Amf",
        EncoderBackend::Qsv => "Qsv",
        EncoderBackend::MediaFoundation => "MediaFoundation",
        EncoderBackend::Software => "Software",
    }
}

/// The backend that a session shows once its encoder is made: the one
/// selected where a hardware encoder is there, the software encoder where
/// the session fell back to dummy frames.
pub fn effective_backend(selected: EncoderBackend, hardware_available: bool) -> (backend:
    EncoderBackend)
    ensures
        backend == (if hardware_available {
            selected
        } else {
            EncoderBackend::Software
        }),
{
    if hardware_available {
        selected
    } else {
        EncoderBackend::Software
    }
}

} // verus!
