//! Text assembly shared by the pipeline stages.
//!
//! The stages build request text by concatenation alone: a meta-prompt around
//! the user's prompt, endpoint URLs around a key or an operation name, and
//! the prompt itself from the command-line words.

use vstd::prelude::*;

verus! {

/// Relies on `String::push_str` of std, which its documentation states
/// appends the given string slice onto the end of the `String`.
pub assume_specification[ String::push_str ](s: &mut String, other: &str)
    ensures
        final(s)@ == old(s)@ + other@,
;

/// The command-line words joined into one prompt: the words in order,
/// separated by single spaces.
pub open spec fn joined_words(words: Seq<Seq<char>>) -> Seq<char>
    decreases words.len(),
{
    if words.len() == 0 {
        Seq::empty()
    } else if words.len() == 1 {
        words[0]
    } else {
        joined_words(words.drop_last()) + " "@ + words.last()
    }
}

/// Joins the command-line words into the run's one prompt, or refuses a run
/// that was given no words at all.
pub fn join_args(args: &Vec<String>) -> (r: Result<String, crate::errors::PipelineError>)
    ensures
        match r {
            Ok(prompt) => args@.len() > 0 && prompt@ == joined_words(args@.map_values(|a: String| a@)),
            Err(e) => args@.len() == 0 && e == crate::errors::PipelineError::Setup,
        },
{
    if args.len() == 0 {
        return Err(crate::errors::PipelineError::Setup);
    }
    let ghost views = args@.map_values(|a: String| a@);
    let mut prompt = String::new();
    prompt.push_str(args[0].as_str());
    let mut i: usize = 1;
    while i < args.len()
        invariant
            1 <= i <= args@.len(),
            views == args@.map_values(|a: String| a@),
            views.len() == args@.len(),
            prompt@ == joined_words(views.take(i as int)),
        decreases args@.len() - i,
    {
        prompt.push_str(" ");
        prompt.push_str(args[i].as_str());
        proof {
            let t = views.take(i as int + 1);
            assert(t.drop_last() =~= views.take(i as int));
            assert(t.last() == views[i as int]);
        }
        i += 1;
    }
    proof {
        assert(views.take(args@.len() as int) =~= views);
    }
    Ok(prompt)
}

} // verus!
