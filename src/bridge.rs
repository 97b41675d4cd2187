use vstd::prelude::*;

use crate::assembler::accept_views;
use crate::assembler::InputAssembler;
use crate::assembler::ReadInput;
use crate::codec::DeviceFunction;
use crate::codec::Packet;
use crate::inputs::ReadInputAll;
use crate::message::hold_messages;
use crate::message::pairs_fit;
use crate::message::param_messages;
use crate::message::single_messages;
use crate::message::spec_pairs;
use crate::message::views;
use crate::message::window_messages;
use crate::message::Message;
use crate::message::MessageView;

verus! {

/// The three input windows, as opposed to the long forms.
pub open spec fn is_window(w: ReadInput) -> bool {
    w is ReadInput1 || w is ReadInput2 || w is ReadInput3
}

/// The publications of a full snapshot, if one was assembled.
pub open spec fn snapshot_messages(snapshot: Option<ReadInputAll>) -> Seq<MessageView> {
    match snapshot {
        Some(a) => window_messages(ReadInput::ReadInputAll(Box::new(a))),
        None => Seq::empty(),
    }
}

/// What one parsed frame publishes, and what it does to the input windows: holding
/// registers read or written publish their values; a parameter read publishes its
/// values; an input window publishes itself and joins the windows of its datalogger,
/// adding the full snapshot once all three are there; a long form or a block of single
/// input registers publishes itself; anything else publishes nothing. A block of
/// values that does not split into whole registers publishes nothing.
pub fn handle_packet(assembler: &mut InputAssembler, p: &Packet, time: i64) -> (r: Vec<Message>)
    requires
        old(assembler).wf(),
    ensures
        final(assembler).wf(),
        match p {
            Packet::TranslatedData(t) => if !pairs_fit(t.register, t.values@) {
                views(r@) == Seq::<MessageView>::empty() && final(assembler).datalogs@ == old(
                    assembler,
                ).datalogs@ && final(assembler).windows@ == old(assembler).windows@
            } else if t.device_function == DeviceFunction::ReadHold || t.device_function
                == DeviceFunction::WriteSingle {
                views(r@) == hold_messages(t.datalog@, spec_pairs(t.register, t.values@))
                    && final(assembler).datalogs@ == old(assembler).datalogs@
                    && final(assembler).windows@ == old(assembler).windows@
            } else if t.device_function == DeviceFunction::ReadInput && t.known_window() {
                exists|w: ReadInput|
                    #![trigger t.reads_window(time, w)]
                    t.reads_window(time, w) && if is_window(w) {
                        let after = accept_views(
                            old(assembler).datalogs@,
                            old(assembler).windows@,
                            w,
                            time,
                        );
                        &&& final(assembler).datalogs@ == after.0
                        &&& final(assembler).windows@ == after.1
                        &&& views(r@) == window_messages(w) + snapshot_messages(after.2)
                    } else {
                        &&& final(assembler).datalogs@ == old(assembler).datalogs@
                        &&& final(assembler).windows@ == old(assembler).windows@
                        &&& views(r@) == window_messages(w)
                    }
            } else if t.device_function == DeviceFunction::ReadInput {
                views(r@) == single_messages(
                    t.datalog@,
                    spec_pairs(t.register, t.values@),
                    spec_pairs(t.register, t.values@).len() as int,
                ) && final(assembler).datalogs@ == old(assembler).datalogs@
                    && final(assembler).windows@ == old(assembler).windows@
            } else {
                views(r@) == Seq::<MessageView>::empty() && final(assembler).datalogs@ == old(
                    assembler,
                ).datalogs@ && final(assembler).windows@ == old(assembler).windows@
            },
            Packet::ReadParam(rp) => final(assembler).datalogs@ == old(assembler).datalogs@
                && final(assembler).windows@ == old(assembler).windows@ && if pairs_fit(
                rp.register,
                rp.values@,
            ) {
                views(r@) == param_messages(rp.datalog@, spec_pairs(rp.register, rp.values@))
            } else {
                views(r@) == Seq::<MessageView>::empty()
            },
            _ => views(r@) == Seq::<MessageView>::empty() && final(assembler).datalogs@ == old(
                assembler,
            ).datalogs@ && final(assembler).windows@ == old(assembler).windows@,
        },
{
    let empty: Vec<Message> = Vec::new();
    proof {
        assert(views(empty@) =~= Seq::<MessageView>::empty());
    }
    match p {
        Packet::TranslatedData(t) => {
            if !(t.values.len() % 2 == 0 && t.register as usize + t.values.len() / 2 <= 0x10000) {
                return empty;
            }
            if t.device_function == DeviceFunction::ReadHold || t.device_function
                == DeviceFunction::WriteSingle {
                Message::for_hold(t)
            } else if t.device_function == DeviceFunction::ReadInput {
                match t.read_input(time) {
                    Ok(w) => {
                        let mut out = Message::for_input_window(&w);
                        let window = match &w {
                            ReadInput::ReadInput1(_) | ReadInput::ReadInput2(_)
                            | ReadInput::ReadInput3(_) => true,
                            _ => false,
                        };
                        if window {
                            let ghost published = views(out@);
                            match assembler.accept(w, time) {
                                Some(a) => {
                                    let mut all = Message::for_input_all(&a);
                                    out.append(&mut all);
                                    proof {
                                        assert(views(out@) =~= published + snapshot_messages(
                                            Some(a),
                                        ));
                                    }
                                },
                                None => {
                                    proof {
                                        assert(views(out@) =~= published + snapshot_messages(
                                            None,
                                        ));
                                    }
                                },
                            }
                        }
                        out
                    },
                    Err(_) => Message::for_input(t, time),
                }
            } else {
                empty
            }
        },
        Packet::ReadParam(rp) => {
            if !(rp.values.len() % 2 == 0 && rp.register as usize + rp.values.len() / 2
                <= 0x10000) {
                return empty;
            }
            Message::for_param(rp)
        },
        _ => empty,
    }
}

} // verus!
