//! Executing a pre-planned action list.  The OS effects themselves are the
//! surrounding program's; here live the cancellation hook of that path and
//! the rendering of a step for diagnostics.

use vstd::prelude::*;

use crate::text::{dec_int_spec, dec_spec, fmt_i32, fmt_u64};
use crate::types::ActionParams;

verus! {

/// Requests cancellation of a running plan.
pub fn cancel_execution(flag: &mut crate::agent::orchestrator::CancelFlag)
    ensures
        final(flag).cancelled,
{
    crate::agent::orchestrator::cancel_agent(flag)
}

/// Modifier names joined with plus signs.
pub open spec fn joined_mods(ms: Seq<Seq<char>>) -> Seq<char>
    decreases ms.len(),
{
    if ms.len() == 0 {
        Seq::empty()
    } else if ms.len() == 1 {
        ms[0]
    } else {
        joined_mods(ms.drop_last()) + "+"@ + ms.last()
    }
}

/// An optional button selector, rendered the way a debug dump shows it.
pub open spec fn opt_text(b: Option<String>) -> Seq<char> {
    match b {
        Some(s) => "Some(\""@ + s@ + "\")"@,
        None => "None"@,
    }
}

/// The one-line description of what a step will do.
pub open spec fn debug_info_spec(p: ActionParams) -> Seq<char> {
    match p {
        ActionParams::OpenApp { app_name } => "open -a "@ + app_name@,
        ActionParams::TypeText { text } => "type: '"@ + text@ + "'"@,
        ActionParams::PressKey { key, modifiers } => {
            let mods = match modifiers {
                Some(v) => joined_mods(v@.map_values(|s: String| s@)),
                None => Seq::<char>::empty(),
            };
            if mods.len() == 0 {
                "key: "@ + key@
            } else {
                "key: "@ + mods + "+"@ + key@
            }
        },
        ActionParams::MouseClick { x, y, button } => "click: ("@ + dec_int_spec(x as int) + ", "@
            + dec_int_spec(y as int) + ") "@ + opt_text(button),
        ActionParams::MouseMove { x, y } => "move: ("@ + dec_int_spec(x as int) + ", "@
            + dec_int_spec(y as int) + ")"@,
        ActionParams::Wait { ms } => "wait: "@ + dec_spec(ms as nat) + "ms"@,
        ActionParams::FindAndClick { element } => "find+click: "@ + element@,
    }
}

/// Renders what a step will execute, for the step-started notification.
pub fn get_debug_info(params: &ActionParams) -> (r: String)
    ensures
        r@ == debug_info_spec(*params),
{
    match params {
        ActionParams::OpenApp { app_name } => String::from_str("open -a ").concat(
            app_name.as_str(),
        ),
        ActionParams::TypeText { text } => String::from_str("type: '").concat(text.as_str()).concat(
            "'",
        ),
        ActionParams::PressKey { key, modifiers } => {
            let mut mods = String::new();
            let ghost mseq: Seq<Seq<char>> = match modifiers {
                Some(v) => v@.map_values(|s: String| s@),
                None => Seq::empty(),
            };
            match modifiers {
                Some(v) => {
                    let mut i: usize = 0;
                    while i < v.len()
                        invariant
                            i <= v@.len(),
                            mseq == v@.map_values(|s: String| s@),
                            mods@ == joined_mods(mseq.subrange(0, i as int)),
                        decreases v.len() - i,
                    {
                        let ghost pre2 = mseq.subrange(0, i + 1);
                        proof {
                            assert(pre2.drop_last() =~= mseq.subrange(0, i as int));
                            assert(pre2.last() == mseq[i as int]);
                        }
                        if i > 0 {
                            mods = mods.concat("+");
                        }
                        mods = mods.concat(v[i].as_str());
                        i += 1;
                    }
                    proof {
                        assert(mseq.subrange(0, mseq.len() as int) =~= mseq);
                    }
                },
                None => {},
            }
            if mods.unicode_len() == 0 {
                String::from_str("key: ").concat(key.as_str())
            } else {
                String::from_str("key: ").concat(mods.as_str()).concat("+").concat(key.as_str())
            }
        },
        ActionParams::MouseClick { x, y, button } => {
            let xs = fmt_i32(*x);
            let ys = fmt_i32(*y);
            let head = String::from_str("click: (").concat(xs.as_str()).concat(", ").concat(
                ys.as_str(),
            ).concat(") ");
            match button {
                Some(b) => head.concat("Some(\"").concat(b.as_str()).concat("\")"),
                None => head.concat("None"),
            }
        },
        ActionParams::MouseMove { x, y } => {
            let xs = fmt_i32(*x);
            let ys = fmt_i32(*y);
            String::from_str("move: (").concat(xs.as_str()).concat(", ").concat(
                ys.as_str(),
            ).concat(")")
        },
        ActionParams::Wait { ms } => {
            let n = fmt_u64(*ms);
            String::from_str("wait: ").concat(n.as_str()).concat("ms")
        },
        ActionParams::FindAndClick { element } => String::from_str("find+click: ").concat(
            element.as_str(),
        ),
    }
}

} // verus!
