//! The prompt builder: renders the fixed instruction template with the
//! current date, the tool catalog, the tool-name list, the question, and the
//! transcript of everything produced so far.
use vstd::prelude::*;

verus! {

/// `parts` joined by `sep`: the parts in order, `sep` between neighbours.
pub open spec fn join_with(parts: Seq<Seq<char>>, sep: Seq<char>) -> Seq<char>
    decreases parts.len(),
{
    if parts.len() == 0 {
        Seq::empty()
    } else if parts.len() == 1 {
        parts[0]
    } else {
        parts[0] + sep + join_with(parts.drop_first(), sep)
    }
}

/// Appending one part extends the join by a separator and that part.
pub proof fn lemma_join_push(parts: Seq<Seq<char>>, sep: Seq<char>, x: Seq<char>)
    ensures
        join_with(parts.push(x), sep) == if parts.len() == 0 {
            x
        } else {
            join_with(parts, sep) + sep + x
        },
    decreases parts.len(),
{
    if parts.len() == 0 {
        assert(parts.push(x)[0] == x);
        assert(join_with(parts.push(x), sep) =~= x);
    } else if parts.len() == 1 {
        assert(parts.push(x).drop_first() =~= seq![x]);
        assert(parts.push(x)[0] == parts[0]);
        assert(join_with(seq![x], sep) == x);
        assert(join_with(parts.push(x), sep) == parts[0] + sep + x);
        assert(join_with(parts, sep) == parts[0]);
        assert(join_with(parts.push(x), sep) =~= join_with(parts, sep) + sep + x);
    } else {
        lemma_join_push(parts.drop_first(), sep, x);
        assert(parts.push(x).drop_first() =~= parts.drop_first().push(x));
        assert(parts.push(x)[0] == parts[0]);
        assert(join_with(parts.push(x), sep) =~= join_with(parts, sep) + sep + x);
    }
}

/// `parts` joined by `sep`.
pub fn join_strings(parts: &Vec<String>, sep: &str) -> (r: String)
    ensures
        r@ == join_with(parts.deep_view(), sep@),
{
    let ghost all = parts.deep_view();
    let mut acc = String::new();
    let mut k: usize = 0;
    while k < parts.len()
        invariant
            k <= parts@.len(),
            all == parts.deep_view(),
            all.len() == parts@.len(),
            acc@ == join_with(all.take(k as int), sep@),
        decreases parts@.len() - k,
    {
        if k > 0 {
            acc.append(sep);
        }
        acc.append(parts[k].as_str());
        proof {
            lemma_join_push(all.take(k as int), sep@, all[k as int]);
            assert(all.take(k + 1) =~= all.take(k as int).push(all[k as int]));
            assert(all[k as int] == parts@[k as int]@);
        }
        k += 1;
    }
    proof {
        assert(all.take(parts@.len() as int) =~= all);
    }
    acc
}

/// The template text before the current date.
pub open spec fn seg_before_date() -> Seq<char> {
    "Today is "@
}

/// The template text between the date and the tool catalog.
pub open spec fn seg_before_tools() -> Seq<char> {
    " and you can use tools to get new information. Answer the question as best as you can using the following tools: \n"@
}

/// The template text between the tool catalog and the tool-name list.
pub open spec fn seg_before_names() -> Seq<char> {
    "\nUse the following format:\nQuestion: the input question you must answer\nThought: comment on what you want to do next\nAction: the action to take, exactly one element of ["@
}

/// The template text between the tool-name list and the question.
pub open spec fn seg_before_question() -> Seq<char> {
    "]\nAction Input: the input to the action\nObservation: the result of the action\n... (this Thought/Action/Action Input/Observation repeats N times, use it until you are sure of the answer)\nThought: I now know the final answer\nFinal Answer: your final answer to the original input question\nBegin!\nQuestion: "@
}

/// The template text between the question and the transcript.
pub open spec fn seg_before_transcript() -> Seq<char> {
    "\nThought: "@
}

/// The template text after the transcript.
pub open spec fn seg_after_transcript() -> Seq<char> {
    "\n"@
}

/// Everything the rendered prompt holds before the transcript placeholder.
pub open spec fn prompt_prefix(
    today: Seq<char>,
    tool_description: Seq<char>,
    tool_names: Seq<char>,
    question: Seq<char>,
) -> Seq<char> {
    seg_before_date() + today + seg_before_tools() + tool_description + seg_before_names()
        + tool_names + seg_before_question() + question + seg_before_transcript()
}

/// The fixed template with its five placeholders substituted textually and
/// exactly: the date, the tool catalog, the tool-name list, the question, and
/// the transcript join. No other template text is altered.
pub open spec fn render_spec(
    today: Seq<char>,
    tool_description: Seq<char>,
    tool_names: Seq<char>,
    question: Seq<char>,
    transcript: Seq<char>,
) -> Seq<char> {
    prompt_prefix(today, tool_description, tool_names, question) + transcript
        + seg_after_transcript()
}

/// An empty transcript renders as an empty placeholder, and a transcript of
/// `n` entries appears in the rendered prompt newline-joined, verbatim and in
/// original order, between a prefix and a suffix that do not depend on it.
pub proof fn lemma_transcript_rendering(
    today: Seq<char>,
    tool_description: Seq<char>,
    tool_names: Seq<char>,
    question: Seq<char>,
    entries: Seq<Seq<char>>,
)
    ensures
        join_with(Seq::<Seq<char>>::empty(), "\n"@) == Seq::<char>::empty(),
        ({
            let rendered = render_spec(
                today,
                tool_description,
                tool_names,
                question,
                join_with(entries, "\n"@),
            );
            let prefix = prompt_prefix(today, tool_description, tool_names, question);
            rendered.subrange(
                prefix.len() as int,
                prefix.len() + join_with(entries, "\n"@).len() as int,
            ) == join_with(entries, "\n"@)
        }),
{
    let rendered = render_spec(
        today,
        tool_description,
        tool_names,
        question,
        join_with(entries, "\n"@),
    );
    let prefix = prompt_prefix(today, tool_description, tool_names, question);
    assert(rendered.subrange(
        prefix.len() as int,
        prefix.len() + join_with(entries, "\n"@).len() as int,
    ) =~= join_with(entries, "\n"@));
}

/// Render the fixed instruction template around the given parts; the
/// transcript entries are joined by newlines, an empty transcript leaving the
/// placeholder empty.
pub fn render_prompt(
    today: &str,
    tool_description: &str,
    tool_names: &str,
    question: &str,
    transcript: &Vec<String>,
) -> (r: String)
    ensures
        r@ == render_spec(
            today@,
            tool_description@,
            tool_names@,
            question@,
            join_with(transcript.deep_view(), "\n"@),
        ),
{
    let mut s = String::new();
    s.append("Today is ");
    s.append(today);
    s.append(
        " and you can use tools to get new information. Answer the question as best as you can using the following tools: \n",
    );
    s.append(tool_description);
    s.append(
        "\nUse the following format:\nQuestion: the input question you must answer\nThought: comment on what you want to do next\nAction: the action to take, exactly one element of [",
    );
    s.append(tool_names);
    s.append(
        "]\nAction Input: the input to the action\nObservation: the result of the action\n... (this Thought/Action/Action Input/Observation repeats N times, use it until you are sure of the answer)\nThought: I now know the final answer\nFinal Answer: your final answer to the original input question\nBegin!\nQuestion: ",
    );
    s.append(question);
    s.append("\nThought: ");
    let joined = join_strings(transcript, "\n");
    s.append(joined.as_str());
    s.append("\n");
    s
}

} // verus!
