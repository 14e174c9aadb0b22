//! The chat-capability data model and the retry/continuation builder: given
//! the original messages and the fragments of a partially received streamed
//! response, build a follow-up request that asks the model to continue from
//! where the stream broke off, without repeating what already arrived.

use vstd::prelude::*;

verus! {

/// Who speaks a chat message.
#[derive(Debug, Clone, Copy, PartialEq, Eq, Structural)]
pub enum Role {
    User,
    Assistant,
    System,
    Tool,
}

/// The requested fidelity of image understanding.
#[derive(Debug, Clone, Copy, PartialEq, Eq, Structural)]
pub enum ImageDetail {
    Auto,
    Low,
    High,
}

/// An image referenced by URL.
#[derive(Debug, Clone, PartialEq, Eq)]
pub struct ImageUrl {
    pub url: String,
    pub detail: Option<ImageDetail>,
}

/// An image carried inline.
#[derive(Debug, Clone, PartialEq, Eq)]
pub struct ImageSource {
    pub data: Vec<u8>,
    pub mime_type: String,
    pub detail: Option<ImageDetail>,
}

/// How a message refers to an image.
#[derive(Debug, Clone, PartialEq, Eq)]
pub enum ImageReference {
    Url(ImageUrl),
    Inline(ImageSource),
}

/// One piece of a message's content.
#[derive(Debug, Clone, PartialEq, Eq)]
pub enum ContentPart {
    Text(String),
    Image(ImageReference),
}

/// One chat message.
#[derive(Debug, Clone, PartialEq, Eq)]
pub struct Message {
    pub role: Role,
    pub name: Option<String>,
    pub content: Vec<ContentPart>,
}

/// A tool invocation requested by the model.
#[derive(Debug, Clone, PartialEq, Eq)]
pub struct ToolCall {
    pub id: String,
    pub name: String,
    pub arguments_json: String,
}

/// One fragment of a streamed response: some content parts, some tool calls,
/// either possibly absent.
#[derive(Debug, Clone, PartialEq, Eq)]
pub struct StreamDelta {
    pub content: Option<Vec<ContentPart>>,
    pub tool_calls: Option<Vec<ToolCall>>,
}

/// The wire name of a chat role.
pub fn to_openai_role_name(role: Role) -> (r: &'static str)
    ensures
        role is User ==> r@ == "user"@,
        role is Assistant ==> r@ == "assistant"@,
        role is System ==> r@ == "system"@,
        role is Tool ==> r@ == "tool"@,
{
    match role {
        Role::User => "user",
        Role::Assistant => "assistant",
        Role::System => "system",
        Role::Tool => "tool",
    }
}

/// The content parts of one fragment.
pub open spec fn delta_content(d: StreamDelta) -> Seq<ContentPart> {
    match d.content {
        Some(c) => c@,
        None => Seq::empty(),
    }
}

/// The tool calls of one fragment.
pub open spec fn delta_tools(d: StreamDelta) -> Seq<ToolCall> {
    match d.tool_calls {
        Some(t) => t@,
        None => Seq::empty(),
    }
}

/// How many flattened parts one fragment contributes.
pub open spec fn delta_part_count(d: StreamDelta) -> int {
    delta_content(d).len() + delta_tools(d).len() as int
}

/// How many flattened parts the first `k` fragments contribute.
pub open spec fn parts_before(ds: Seq<StreamDelta>, k: int) -> int
    decreases k,
{
    if k <= 0 {
        0
    } else {
        parts_before(ds, k - 1) + delta_part_count(ds[k - 1])
    }
}

/// The compact tagged text standing for one tool-call fragment.
pub open spec fn spec_tool_call_text(tc: ToolCall) -> Seq<char> {
    "<tool-call id=\""@ + tc.id@ + "\" name=\""@ + tc.name@ + "\" arguments=\""@
        + tc.arguments_json@ + "\"/>"@
}

/// Render one tool call in its compact tagged textual form.
pub fn tool_call_text(tc: &ToolCall) -> (r: String)
    ensures
        r@ == spec_tool_call_text(*tc),
{
    let mut s = String::from_str("<tool-call id=\"");
    s.append(tc.id.as_str());
    s.append("\" name=\"");
    s.append(tc.name.as_str());
    s.append("\" arguments=\"");
    s.append(tc.arguments_json.as_str());
    s.append("\"/>");
    s
}

/// Whether a content part is the tagged text of a tool call.
pub open spec fn is_tool_text(p: ContentPart, tc: ToolCall) -> bool {
    p matches ContentPart::Text(t) && t@ == spec_tool_call_text(tc)
}

/// Whether a flattened sequence holds, for each fragment in order, first its
/// content parts verbatim and then its tool calls in tagged textual form.
pub open spec fn flattened_matches(ds: Seq<StreamDelta>, ps: Seq<ContentPart>) -> bool {
    &&& ps.len() == parts_before(ds, ds.len() as int)
    &&& (forall|k: int, i: int| #![trigger delta_content(ds[k])[i]]
        0 <= k < ds.len() && 0 <= i < delta_content(ds[k]).len() ==> ps[parts_before(ds, k) + i]
            == delta_content(ds[k])[i])
    &&& (forall|k: int, i: int| #![trigger delta_tools(ds[k])[i]]
        0 <= k < ds.len() && 0 <= i < delta_tools(ds[k]).len() ==> is_tool_text(
            ps[parts_before(ds, k) + delta_content(ds[k]).len() + i],
            delta_tools(ds[k])[i],
        ))
}

/// Contributions never shrink as fragments accumulate.
proof fn lemma_parts_before_bound(ds: Seq<StreamDelta>, k2: int, k: int)
    requires
        0 <= k2 < k <= ds.len(),
    ensures
        parts_before(ds, k2) + delta_part_count(ds[k2]) <= parts_before(ds, k),
        parts_before(ds, k2) >= 0,
    decreases k,
{
    lemma_parts_before_nonneg(ds, k2);
    if k2 + 1 < k {
        lemma_parts_before_bound(ds, k2, k - 1);
    }
}

/// No fragment contributes a negative number of parts.
proof fn lemma_parts_before_nonneg(ds: Seq<StreamDelta>, k: int)
    ensures
        parts_before(ds, k) >= 0,
    decreases k,
{
    if k > 0 {
        lemma_parts_before_nonneg(ds, k - 1);
    }
}

/// Flatten streamed fragments into one ordered content list: each fragment's
/// text parts verbatim, then its tool calls as tagged text.
pub fn flatten_partial(partial_result: Vec<StreamDelta>) -> (r: Vec<ContentPart>)
    ensures
        flattened_matches(partial_result@, r@),
{
    let ghost ds = partial_result@;
    let mut rest = partial_result;
    let mut out: Vec<ContentPart> = Vec::new();
    let mut k: usize = 0;
    let total = rest.len();
    while rest.len() > 0
        invariant
            ds.len() == total,
            k + rest@.len() == ds.len(),
            rest@ =~= ds.subrange(k as int, ds.len() as int),
            out@.len() == parts_before(ds, k as int),
            forall|k2: int, i: int| #![trigger delta_content(ds[k2])[i]]
                0 <= k2 < k && 0 <= i < delta_content(ds[k2]).len() ==> out@[parts_before(ds, k2)
                    + i] == delta_content(ds[k2])[i],
            forall|k2: int, i: int| #![trigger delta_tools(ds[k2])[i]]
                0 <= k2 < k && 0 <= i < delta_tools(ds[k2]).len() ==> is_tool_text(
                    out@[parts_before(ds, k2) + delta_content(ds[k2]).len() + i],
                    delta_tools(ds[k2])[i],
                ),
        decreases rest@.len(),
    {
        let ghost out_snap = out@;
        let ghost snap_len = out@.len() as int;
        let delta = rest.remove(0);
        proof {
            assert(delta == ds[k as int]);
            assert(rest@ =~= ds.subrange(k + 1 as int, ds.len() as int));
        }
        let ghost clen = delta_content(ds[k as int]).len() as int;
        let ghost tlen = delta_tools(ds[k as int]).len() as int;
        let StreamDelta { content, tool_calls } = delta;
        match content {
            Some(mut parts) => {
                let ghost cs = parts@;
                let cn = parts.len();
                let mut i: usize = 0;
                while parts.len() > 0
                    invariant
                        cs.len() == cn,
                        i + parts@.len() == cs.len(),
                        parts@ =~= cs.subrange(i as int, cs.len() as int),
                        out@.len() == snap_len + i,
                        out@.subrange(0, snap_len) =~= out_snap,
                        snap_len == out_snap.len(),
                        forall|j: int| 0 <= j < i ==> out@[snap_len + j] == cs[j],
                    decreases parts@.len(),
                {
                    let p = parts.remove(0);
                    proof {
                        assert(p == cs[i as int]);
                        assert(parts@ =~= cs.subrange(i + 1 as int, cs.len() as int));
                    }
                    out.push(p);
                    i += 1;
                    proof {
                        assert(out@.subrange(0, snap_len) =~= out_snap);
                    }
                }
            },
            None => {},
        }
        let ghost mid = out@;
        proof {
            assert(mid.len() == snap_len + clen);
            assert(forall|j: int| 0 <= j < clen ==> #[trigger] mid[snap_len + j] == delta_content(
                ds[k as int],
            )[j]);
        }
        match tool_calls {
            Some(tcs) => {
                let ghost ts = tcs@;
                let mut i: usize = 0;
                while i < tcs.len()
                    invariant
                        tcs@ == ts,
                        ts =~= delta_tools(ds[k as int]),
                        i <= ts.len(),
                        out@.len() == snap_len + clen + i,
                        out@.subrange(0, snap_len + clen) =~= mid,
                        mid.len() == snap_len + clen,
                        forall|j: int| #![trigger ts[j]]
                            0 <= j < i ==> is_tool_text(out@[snap_len + clen + j], ts[j]),
                    decreases ts.len() - i,
                {
                    let text = tool_call_text(&tcs[i]);
                    proof {
                        assert(text@ == spec_tool_call_text(ts[i as int]));
                    }
                    out.push(ContentPart::Text(text));
                    proof {
                        assert(out@[snap_len + clen + (i as int)] == ContentPart::Text(text));
                        assert(is_tool_text(out@[snap_len + clen + (i as int)], ts[i as int]));
                    }
                    i += 1;
                    proof {
                        assert(out@.subrange(0, snap_len + clen) =~= mid);
                    }
                }
                proof {
                    assert forall|j: int| 0 <= j < tlen implies is_tool_text(
                        #[trigger] out@[snap_len + clen + j],
                        delta_tools(ds[k as int])[j],
                    ) by {
                        assert(spec_tool_call_text(ts[j]) == spec_tool_call_text(
                            delta_tools(ds[k as int])[j],
                        ));
                    }
                }
            },
            None => {},
        }
        k += 1;
        proof {
            assert(out@.len() == parts_before(ds, k as int));
            assert(out@.subrange(0, snap_len) =~= out_snap) by {
                assert(out@.subrange(0, snap_len + clen) =~= mid);
                assert forall|j: int| 0 <= j < snap_len implies out@.subrange(0, snap_len)[j]
                    == out_snap[j] by {
                    assert(out@[j] == out@.subrange(0, snap_len + clen)[j]);
                    assert(mid[j] == mid.subrange(0, snap_len)[j]);
                    assert(mid.subrange(0, snap_len) =~= out_snap);
                }
            }
            assert forall|k2: int, i: int| #![trigger delta_content(ds[k2])[i]]
                0 <= k2 < k && 0 <= i < delta_content(ds[k2]).len() implies out@[parts_before(
                ds,
                k2,
            ) + i] == delta_content(ds[k2])[i] by {
                if k2 < k - 1 {
                    lemma_parts_before_bound(ds, k2, k - 1);
                    assert(out_snap[parts_before(ds, k2) + i] == delta_content(ds[k2])[i]);
                    let idx = parts_before(ds, k2) + i;
                    assert(out@.subrange(0, snap_len)[idx] == out_snap[idx]);
                } else {
                    assert(k2 == k - 1);
                    assert(parts_before(ds, k2) == snap_len);
                    assert(mid[snap_len + i] == delta_content(ds[k2])[i]);
                    assert(out@.subrange(0, snap_len + clen)[snap_len + i] == mid[snap_len + i]);
                }
            }
            assert forall|k2: int, i: int| #![trigger delta_tools(ds[k2])[i]]
                0 <= k2 < k && 0 <= i < delta_tools(ds[k2]).len() implies is_tool_text(
                out@[parts_before(ds, k2) + delta_content(ds[k2]).len() + i],
                delta_tools(ds[k2])[i],
            ) by {
                if k2 < k - 1 {
                    lemma_parts_before_bound(ds, k2, k - 1);
                    let idx = parts_before(ds, k2) + delta_content(ds[k2]).len() + i;
                    assert(idx < snap_len);
                    assert(out@.subrange(0, snap_len)[idx] == out_snap[idx]);
                } else {
                    assert(k2 == k - 1);
                    assert(parts_before(ds, k2) == snap_len);
                }
            }
        }
    }
    proof {
        assert(k == ds.len());
    }
    out
}

/// The instruction message explaining that the prior response was cut short
/// and must be continued without repetition.
pub open spec fn spec_interruption_notice() -> Seq<char> {
    "You were asked the same question previously, but the response was interrupted before completion. Please continue your response from where you left off. Do not include the part of the response that was already seen. If the response starts with a new word and no punctuation then add a space to the beginning"@
}

/// Reconstruct a resumable request after a partially received streamed
/// response: an interruption notice, the original question context, the
/// original messages verbatim, and finally the flattened partial content
/// under a label, so the model's next answer is the continuation and not a
/// repeat.
pub fn retry_prompt(original_messages: Vec<Message>, partial_result: Vec<StreamDelta>) -> (r: Vec<
    Message,
>)
    ensures
        r@.len() == original_messages@.len() + 3,
        r@[0].role is System && r@[0].name is None && r@[0].content@.len() == 1
            && (r@[0].content@[0] matches ContentPart::Text(t) && t@ == spec_interruption_notice()),
        r@[1].role is User && r@[1].name is None && r@[1].content@.len() == 1
            && (r@[1].content@[0] matches ContentPart::Text(t) && t@
            == "Here is the original question:"@),
        forall|i: int|
            0 <= i < original_messages@.len() ==> r@[2 + i] == original_messages@[i],
        ({
            let last = r@[r@.len() - 1];
            &&& last.role is User
            &&& last.name is None
            &&& last.content@.len() == 1 + parts_before(
                partial_result@,
                partial_result@.len() as int,
            )
            &&& (last.content@[0] matches ContentPart::Text(t) && t@
                == "Here is the partial response that was successfully received:"@)
            &&& flattened_matches(partial_result@, last.content@.drop_first())
        }),
{
    let mut extended: Vec<Message> = Vec::new();
    let mut notice_content: Vec<ContentPart> = Vec::new();
    notice_content.push(
        ContentPart::Text(
            String::from_str(
                "You were asked the same question previously, but the response was interrupted before completion. Please continue your response from where you left off. Do not include the part of the response that was already seen. If the response starts with a new word and no punctuation then add a space to the beginning",
            ),
        ),
    );
    extended.push(Message { role: Role::System, name: None, content: notice_content });
    let mut question_content: Vec<ContentPart> = Vec::new();
    question_content.push(ContentPart::Text(String::from_str("Here is the original question:")));
    extended.push(Message { role: Role::User, name: None, content: question_content });
    let ghost oms = original_messages@;
    let mut rest = original_messages;
    while rest.len() > 0
        invariant
            extended@.len() + rest@.len() == oms.len() + 2,
            rest@ =~= oms.subrange(
                extended@.len() - 2,
                oms.len() as int,
            ),
            extended@.len() >= 2,
            extended@[0].role is System && extended@[0].name is None && extended@[0].content@.len()
                == 1 && (extended@[0].content@[0] matches ContentPart::Text(t) && t@
                == spec_interruption_notice()),
            extended@[1].role is User && extended@[1].name is None && extended@[1].content@.len()
                == 1 && (extended@[1].content@[0] matches ContentPart::Text(t) && t@
                == "Here is the original question:"@),
            forall|i: int| 0 <= i < extended@.len() - 2 ==> extended@[2 + i] == oms[i],
        decreases rest@.len(),
    {
        let m = rest.remove(0);
        proof {
            assert(m == oms[extended@.len() - 2]);
        }
        extended.push(m);
        proof {
            assert(rest@ =~= oms.subrange(extended@.len() - 2, oms.len() as int));
        }
    }
    let ghost ds = partial_result@;
    let flat = flatten_partial(partial_result);
    let mut partial_content: Vec<ContentPart> = Vec::new();
    partial_content.push(
        ContentPart::Text(
            String::from_str("Here is the partial response that was successfully received:"),
        ),
    );
    let ghost label_only = partial_content@;
    let mut flat_rest = flat;
    let ghost fs = flat_rest@;
    while flat_rest.len() > 0
        invariant
            partial_content@.len() + flat_rest@.len() == fs.len() + 1,
            flat_rest@ =~= fs.subrange(partial_content@.len() - 1, fs.len() as int),
            partial_content@.len() >= 1,
            partial_content@[0] == label_only[0],
            forall|i: int| 0 <= i < partial_content@.len() - 1 ==> partial_content@[1 + i] == fs[i],
        decreases flat_rest@.len(),
    {
        let p = flat_rest.remove(0);
        proof {
            assert(p == fs[partial_content@.len() - 1]);
        }
        partial_content.push(p);
        proof {
            assert(flat_rest@ =~= fs.subrange(partial_content@.len() - 1, fs.len() as int));
        }
    }
    proof {
        assert(partial_content@.drop_first() =~= fs);
    }
    extended.push(Message { role: Role::User, name: None, content: partial_content });
    extended
}

} // verus!
