//! Yank: the text that copying the Operation Targets' paths puts on the
//! system clipboard.
use vstd::prelude::*;
use crate::text::{join, push_char, push_str, views};

verus! {

/// The clipboard text for a list of absolute paths: the paths joined with
/// `\n`, with no trailing newline (pasting into a shell must not run the last
/// path), and the empty string for no paths.
pub fn format_paths(paths: &[String]) -> (r: String)
    ensures
        r@ == join(views(paths@), seq!['\n']),
{
    let mut out = String::new();
    let mut i: usize = 0;
    while i < paths.len()
        invariant
            i <= paths@.len(),
            out@ == join(views(paths@.subrange(0, i as int)), seq!['\n']),
        decreases paths@.len() - i,
    {
        let ghost before = out@;
        if i > 0 {
            push_char(&mut out, '\n');
        }
        push_str(&mut out, paths[i].as_str());
        proof {
            let p = views(paths@.subrange(0, i + 1));
            assert(p.drop_last() =~= views(paths@.subrange(0, i as int)));
            assert(p.last() == paths@[i as int]@);
            if i == 0 {
                assert(p.len() == 1);
                assert(out@ =~= p[0]);
            } else {
                assert(out@ =~= join(p.drop_last(), seq!['\n']) + seq!['\n'] + p.last());
            }
        }
        i += 1;
    }
    assert(paths@.subrange(0, paths@.len() as int) =~= paths@);
    out
}

} // verus!
