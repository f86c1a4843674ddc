use std::collections::HashMap;
use vstd::prelude::*;
use vstd::std_specs::hash::{group_hash_axioms, spec_hash_map_iter};
use vstd::std_specs::iter::IteratorSpec;

use crate::common::{opt_map, opt_str, strs, Identifiable, ToolCalls, Tools, Usage};
use crate::error::{OpenApiError, Rejected};
use crate::message::{CompletionMessage, GeneralMessage};
use crate::networking::{self, ApiRequest, HttpMethod};

verus! {

broadcast use group_hash_axioms;

// Real-valued parameters are carried as the IEEE-754 binary64 encoding of
// the number (what `f64::to_bits` returns), and compared as IEEE-754
// compares binary64 values.

/// The encoding of 0.0.
pub const F64_ZERO: u64 = 0x0000_0000_0000_0000;

/// The encoding of 2.0.
pub const F64_TWO: u64 = 0x4000_0000_0000_0000;

/// The encoding of -2.0.
pub const F64_MINUS_TWO: u64 = 0xC000_0000_0000_0000;

/// Whether the sign bit is set.
pub open spec fn f64_negative(bits: u64) -> bool {
    bits >> 63u64 == 1u64
}

/// The encoding with the sign bit cleared.
pub open spec fn f64_magnitude(bits: u64) -> u64 {
    bits & 0x7FFF_FFFF_FFFF_FFFFu64
}

/// Whether the encoding is a NaN: every exponent bit set and a nonzero
/// fraction.
pub open spec fn f64_is_nan(bits: u64) -> bool {
    f64_magnitude(bits) > 0x7FF0_0000_0000_0000u64
}

/// `a <= b` on the numbers encoded: false when either is a NaN; the two
/// zeros are equal; otherwise a negative number is below a positive one,
/// larger magnitudes of non-negative numbers are larger, and larger
/// magnitudes of negative numbers are smaller.
pub open spec fn f64_le(a: u64, b: u64) -> bool {
    if f64_is_nan(a) || f64_is_nan(b) {
        false
    } else if f64_magnitude(a) == 0 && f64_magnitude(b) == 0 {
        true
    } else if f64_negative(a) != f64_negative(b) {
        f64_negative(a)
    } else if f64_negative(a) {
        f64_magnitude(a) >= f64_magnitude(b)
    } else {
        f64_magnitude(a) <= f64_magnitude(b)
    }
}

/// Whether the number encoded by `x` lies in the inclusive range from `lo`
/// to `hi`.
pub open spec fn f64_in_range(x: u64, lo: u64, hi: u64) -> bool {
    f64_le(lo, x) && f64_le(x, hi)
}

fn f64_le_exec(a: u64, b: u64) -> (r: bool)
    ensures
        r == f64_le(a, b),
{
    let mag_a = a & 0x7FFF_FFFF_FFFF_FFFFu64;
    let mag_b = b & 0x7FFF_FFFF_FFFF_FFFFu64;
    let neg_a = a >> 63u64 == 1u64;
    let neg_b = b >> 63u64 == 1u64;
    if mag_a > 0x7FF0_0000_0000_0000u64 || mag_b > 0x7FF0_0000_0000_0000u64 {
        false
    } else if mag_a == 0 && mag_b == 0 {
        true
    } else if neg_a != neg_b {
        neg_a
    } else if neg_a {
        mag_a >= mag_b
    } else {
        mag_a <= mag_b
    }
}

fn f64_in_range_exec(x: u64, lo: u64, hi: u64) -> (r: bool)
    ensures
        r == f64_in_range(x, lo, hi),
{
    f64_le_exec(lo, x) && f64_le_exec(x, hi)
}

/// Penalties lie in [-2.0, 2.0].
pub open spec fn accepts_penalty(bits: u64) -> bool {
    f64_in_range(bits, F64_MINUS_TWO, F64_TWO)
}

/// Temperature and nucleus mass lie in [0.0, 2.0].
pub open spec fn accepts_sampling(bits: u64) -> bool {
    f64_in_range(bits, F64_ZERO, F64_TWO)
}

/// A completion is between 1 and 32768 tokens long.
pub open spec fn accepts_max_tokens(n: i32) -> bool {
    1 <= n <= 32768
}

/// Every bias lies in [-100, 100].
pub open spec fn accepts_logit_bias(m: Map<u32, i32>) -> bool {
    forall|token: u32| #[trigger] m.contains_key(token) ==> -100 <= m[token] <= 100
}

/// At most four stop sequences.
pub const MAX_STOP: usize = 4;

/// The most likely tokens are reported only once log probabilities are
/// asked for.
pub open spec fn accepts_top_logprobs(v: ChatBuilderView) -> bool {
    v.logprobs == Some(true)
}

/// The model that offers no log probabilities.
pub open spec fn vision_preview() -> Seq<char> {
    "gpt-4-vision-preview"@
}

fn logit_bias_in_range(logit_bias: &HashMap<u32, i32>) -> (r: bool)
    ensures
        r == accepts_logit_bias(logit_bias@),
{
    broadcast use vstd::std_specs::hash::axiom_u32_obeys_hash_table_key_model;
    broadcast use vstd::std_specs::hash::axiom_random_state_builds_valid_hashers;

    for entry in it: logit_bias.iter()
        invariant
            it.seq() == spec_hash_map_iter(logit_bias).remaining(),
            forall|i: int| 0 <= i < it.index() ==> -100 <= *(#[trigger] it.seq()[i]).1 <= 100,
    {
        let (token, bias) = entry;
        if *bias < -100 || *bias > 100 {
            proof {
                let i = it.index() as int;
                assert(it.seq()[i] == (token, bias));
                assert(logit_bias@.contains_key(*it.seq()[i].0));
                assert(!(-100 <= logit_bias@[*token] <= 100));
            }
            return false;
        }
    }
    true
}

/// A chat-completion request under construction. Each validating setter
/// checks its value before any network access; on refusal it hands the
/// builder back unchanged together with the error.
#[derive(Clone, Debug)]
pub struct ChatBuilder {
    messages: Vec<CompletionMessage>,
    model: String,
    frequency_penalty: Option<u64>,
    logit_bias: Option<HashMap<u32, i32>>,
    logprobs: Option<bool>,
    top_logprobs: Option<i8>,
    max_tokens: Option<i32>,
    n: Option<i8>,
    presence_penalty: Option<u64>,
    response_format: Option<HashMap<String, String>>,
    seed: Option<i32>,
    stop: Vec<String>,
    stream: Option<bool>,
    temperature: Option<u64>,
    top_p: Option<u64>,
    tools: Vec<Tools>,
    tool_choice: Option<String>,
    user: Option<String>,
}

/// What a `ChatBuilder` holds; real numbers as their binary64 encodings.
pub struct ChatBuilderView {
    pub messages: Seq<CompletionMessage>,
    pub model: Seq<char>,
    pub frequency_penalty: Option<u64>,
    pub logit_bias: Option<Map<u32, i32>>,
    pub logprobs: Option<bool>,
    pub top_logprobs: Option<i8>,
    pub max_tokens: Option<i32>,
    pub n: Option<i8>,
    pub presence_penalty: Option<u64>,
    pub response_format: Option<Map<String, String>>,
    pub seed: Option<i32>,
    pub stop: Seq<Seq<char>>,
    pub stream: Option<bool>,
    pub temperature: Option<u64>,
    pub top_p: Option<u64>,
    pub tools: Seq<Tools>,
    pub tool_choice: Option<Seq<char>>,
    pub user: Option<Seq<char>>,
}

impl View for ChatBuilder {
    type V = ChatBuilderView;

    closed spec fn view(&self) -> ChatBuilderView {
        ChatBuilderView {
            messages: self.messages@,
            model: self.model@,
            frequency_penalty: self.frequency_penalty,
            logit_bias: opt_map(self.logit_bias),
            logprobs: self.logprobs,
            top_logprobs: self.top_logprobs,
            max_tokens: self.max_tokens,
            n: self.n,
            presence_penalty: self.presence_penalty,
            response_format: opt_map(self.response_format),
            seed: self.seed,
            stop: strs(self.stop@),
            stream: self.stream,
            temperature: self.temperature,
            top_p: self.top_p,
            tools: self.tools@,
            tool_choice: opt_str(self.tool_choice),
            user: opt_str(self.user),
        }
    }
}

impl ChatBuilder {
    /// A request to `model` over `messages`, with nothing else set.
    pub fn new<T: Identifiable>(model: T, messages: Vec<CompletionMessage>) -> (r: Self)
        ensures
            r@ == (ChatBuilderView {
                messages: messages@,
                model: model.identifier(),
                frequency_penalty: None,
                logit_bias: None,
                logprobs: None,
                top_logprobs: None,
                max_tokens: None,
                n: None,
                presence_penalty: None,
                response_format: None,
                seed: None,
                stop: Seq::empty(),
                stream: None,
                temperature: None,
                top_p: None,
                tools: Seq::empty(),
                tool_choice: None,
                user: None,
            }),
    {
        let model = model.get_identifier();
        let stop: Vec<String> = Vec::new();
        assert(strs(stop@) =~= Seq::empty());
        ChatBuilder {
            messages,
            model,
            frequency_penalty: None,
            logit_bias: None,
            logprobs: None,
            top_logprobs: None,
            max_tokens: None,
            n: None,
            presence_penalty: None,
            response_format: None,
            seed: None,
            stop,
            stream: None,
            temperature: None,
            top_p: None,
            tools: Vec::new(),
            tool_choice: None,
            user: None,
        }
    }

    /// Sets the frequency penalty, given as its binary64 encoding; it must
    /// lie in [-2.0, 2.0].
    pub fn with_frequency_penalty(self, frequency_penalty: u64) -> (r: Result<Self, Rejected<Self>>)
        ensures
            r is Ok <==> accepts_penalty(frequency_penalty),
            r matches Ok(b) ==>
                b@ == (ChatBuilderView { frequency_penalty: Some(frequency_penalty), ..self@ }),
            r matches Err(e) ==> e.builder == self && e.error is RestrictedValue,
    {
        if f64_in_range_exec(frequency_penalty, F64_MINUS_TWO, F64_TWO) {
            Ok(ChatBuilder { frequency_penalty: Some(frequency_penalty), ..self })
        } else {
            Err(Rejected {
                builder: self,
                error: OpenApiError::RestrictedValue(
                    String::from_str("Frequency Penalty must be between -2 and 2"),
                ),
            })
        }
    }

    /// Sets the bias of each token; every bias must lie in [-100, 100], and
    /// one out of range refuses the whole map.
    pub fn with_logit_bias(self, logit_bias: HashMap<u32, i32>) -> (r: Result<Self, Rejected<Self>>)
        ensures
            r is Ok <==> accepts_logit_bias(logit_bias@),
            r matches Ok(b) ==> b@ == (ChatBuilderView { logit_bias: Some(logit_bias@), ..self@ }),
            r matches Err(e) ==> e.builder == self && e.error is RestrictedValue,
    {
        if logit_bias_in_range(&logit_bias) {
            Ok(ChatBuilder { logit_bias: Some(logit_bias), ..self })
        } else {
            Err(Rejected {
                builder: self,
                error: OpenApiError::RestrictedValue(
                    String::from_str("Logit Bias values must be between -100 and 100"),
                ),
            })
        }
    }

    /// Asks for log probabilities, which one model does not offer.
    pub fn with_logprobs(self, logprobs: bool) -> (r: Result<Self, Rejected<Self>>)
        ensures
            r is Ok <==> self@.model != vision_preview(),
            r matches Ok(b) ==> b@ == (ChatBuilderView { logprobs: Some(logprobs), ..self@ }),
            r matches Err(e) ==> e.builder == self && e.error is RestrictedValue,
    {
        if self.model == String::from_str("gpt-4-vision-preview") {
            Err(Rejected {
                builder: self,
                error: OpenApiError::RestrictedValue(
                    String::from_str("Logprobs is not supported for gpt-4-vision-preview"),
                ),
            })
        } else {
            Ok(ChatBuilder { logprobs: Some(logprobs), ..self })
        }
    }

    /// Sets how many likeliest tokens to report; log probabilities must
    /// have been asked for first.
    pub fn with_top_logprobs(self, top_logprobs: i8) -> (r: Result<Self, Rejected<Self>>)
        ensures
            r is Ok <==> accepts_top_logprobs(self@),
            r matches Ok(b) ==>
                b@ == (ChatBuilderView { top_logprobs: Some(top_logprobs), ..self@ }),
            r matches Err(e) ==> e.builder == self && e.error is RestrictedValue,
    {
        match self.logprobs {
            Some(true) => Ok(ChatBuilder { top_logprobs: Some(top_logprobs), ..self }),
            _ => Err(Rejected {
                builder: self,
                error: OpenApiError::RestrictedValue(
                    String::from_str("Top Logprobs requires logprobs to be true"),
                ),
            }),
        }
    }

    /// Caps the completion's length; the cap must lie in [1, 32768].
    pub fn with_max_tokens(self, max_tokens: i32) -> (r: Result<Self, Rejected<Self>>)
        ensures
            r is Ok <==> accepts_max_tokens(max_tokens),
            r matches Ok(b) ==> b@ == (ChatBuilderView { max_tokens: Some(max_tokens), ..self@ }),
            r matches Err(e) ==> e.builder == self && e.error is RestrictedValue,
    {
        if 1 <= max_tokens && max_tokens <= 32768 {
            Ok(ChatBuilder { max_tokens: Some(max_tokens), ..self })
        } else {
            Err(Rejected {
                builder: self,
                error: OpenApiError::RestrictedValue(
                    String::from_str("Max Tokens must be between 1 and 32,768"),
                ),
            })
        }
    }

    pub fn with_choice_count(self, n: i8) -> (r: Self)
        ensures
            r@ == (ChatBuilderView { n: Some(n), ..self@ }),
    {
        ChatBuilder { n: Some(n), ..self }
    }

    /// Sets the presence penalty, given as its binary64 encoding; it must
    /// lie in [-2.0, 2.0].
    pub fn with_presence_penalty(self, presence_penalty: u64) -> (r: Result<Self, Rejected<Self>>)
        ensures
            r is Ok <==> accepts_penalty(presence_penalty),
            r matches Ok(b) ==>
                b@ == (ChatBuilderView { presence_penalty: Some(presence_penalty), ..self@ }),
            r matches Err(e) ==> e.builder == self && e.error is RestrictedValue,
    {
        if f64_in_range_exec(presence_penalty, F64_MINUS_TWO, F64_TWO) {
            Ok(ChatBuilder { presence_penalty: Some(presence_penalty), ..self })
        } else {
            Err(Rejected {
                builder: self,
                error: OpenApiError::RestrictedValue(
                    String::from_str("Presence Penalty must be between -2.0 and 2.0"),
                ),
            })
        }
    }

    pub fn with_response_format(self, response_format: HashMap<String, String>) -> (r: Self)
        ensures
            r@ == (ChatBuilderView { response_format: Some(response_format@), ..self@ }),
    {
        ChatBuilder { response_format: Some(response_format), ..self }
    }

    pub fn with_seed(self, seed: i32) -> (r: Self)
        ensures
            r@ == (ChatBuilderView { seed: Some(seed), ..self@ }),
    {
        ChatBuilder { seed: Some(seed), ..self }
    }

    /// Sets the stop sequences, at most four; a longer list is refused,
    /// never cut.
    pub fn with_stop(self, stop: Vec<String>) -> (r: Result<Self, Rejected<Self>>)
        ensures
            r is Ok <==> stop@.len() <= MAX_STOP,
            r matches Ok(b) ==> b@ == (ChatBuilderView { stop: strs(stop@), ..self@ }),
            r matches Err(e) ==> e.builder == self && e.error == OpenApiError::InvalidLength(
                stop@.len() as usize,
                MAX_STOP,
            ),
    {
        if stop.len() <= MAX_STOP {
            Ok(ChatBuilder { stop, ..self })
        } else {
            let len = stop.len();
            Err(Rejected { builder: self, error: OpenApiError::InvalidLength(len, MAX_STOP) })
        }
    }

    pub fn with_stream(self, stream: bool) -> (r: Self)
        ensures
            r@ == (ChatBuilderView { stream: Some(stream), ..self@ }),
    {
        ChatBuilder { stream: Some(stream), ..self }
    }

    /// Sets the sampling temperature, given as its binary64 encoding; it
    /// must lie in [0.0, 2.0].
    pub fn with_temperature(self, temperature: u64) -> (r: Result<Self, Rejected<Self>>)
        ensures
            r is Ok <==> accepts_sampling(temperature),
            r matches Ok(b) ==> b@ == (ChatBuilderView { temperature: Some(temperature), ..self@ }),
            r matches Err(e) ==> e.builder == self && e.error is RestrictedValue,
    {
        if f64_in_range_exec(temperature, F64_ZERO, F64_TWO) {
            Ok(ChatBuilder { temperature: Some(temperature), ..self })
        } else {
            Err(Rejected {
                builder: self,
                error: OpenApiError::RestrictedValue(
                    String::from_str("Temperature must be between 0.0 and 2.0"),
                ),
            })
        }
    }

    /// Sets the nucleus-sampling mass, given as its binary64 encoding; it
    /// must lie in [0.0, 2.0].
    pub fn with_top_p(self, top_p: u64) -> (r: Result<Self, Rejected<Self>>)
        ensures
            r is Ok <==> accepts_sampling(top_p),
            r matches Ok(b) ==> b@ == (ChatBuilderView { top_p: Some(top_p), ..self@ }),
            r matches Err(e) ==> e.builder == self && e.error is RestrictedValue,
    {
        if f64_in_range_exec(top_p, F64_ZERO, F64_TWO) {
            Ok(ChatBuilder { top_p: Some(top_p), ..self })
        } else {
            Err(Rejected {
                builder: self,
                error: OpenApiError::RestrictedValue(
                    String::from_str("Top P must be between 0.0 and 2.0"),
                ),
            })
        }
    }

    pub fn with_tools(self, tools: Vec<Tools>) -> (r: Self)
        ensures
            r@ == (ChatBuilderView { tools: tools@, ..self@ }),
    {
        ChatBuilder { tools, ..self }
    }

    pub fn with_tool_choice(self, tool_choice: String) -> (r: Self)
        ensures
            r@ == (ChatBuilderView { tool_choice: Some(tool_choice@), ..self@ }),
    {
        ChatBuilder { tool_choice: Some(tool_choice), ..self }
    }

    pub fn with_user(self, user: String) -> (r: Self)
        ensures
            r@ == (ChatBuilderView { user: Some(user@), ..self@ }),
    {
        ChatBuilder { user: Some(user), ..self }
    }

    /// Where the completion is requested.
    pub fn create_request(&self) -> (r: ApiRequest)
        ensures
            r.method == HttpMethod::Post,
            r.endpoint@ == "chat/completions"@,
    {
        networking::create_chat_completion()
    }
}

/// Every documented range is inclusive at both ends: its bounds are
/// accepted, and the nearest values beyond them are refused. For the real
/// parameters the nearest values are the adjacent binary64 numbers: above
/// 2.0, 0x4000_0000_0000_0001; below -2.0, 0xC000_0000_0000_0001; below
/// 0.0, the negative number of least magnitude, 0x8000_0000_0000_0001.
pub proof fn lemma_ranges_are_inclusive()
    ensures
        accepts_penalty(F64_MINUS_TWO),
        accepts_penalty(F64_TWO),
        !accepts_penalty(0xC000_0000_0000_0001u64),
        !accepts_penalty(0x4000_0000_0000_0001u64),
        accepts_sampling(F64_ZERO),
        accepts_sampling(F64_TWO),
        !accepts_sampling(0x8000_0000_0000_0001u64),
        !accepts_sampling(0x4000_0000_0000_0001u64),
        accepts_max_tokens(1),
        accepts_max_tokens(32768),
        !accepts_max_tokens(0),
        !accepts_max_tokens(32769),
{
    assert(0x0000_0000_0000_0000u64 & 0x7FFF_FFFF_FFFF_FFFFu64 == 0u64) by (bit_vector);
    assert(0x0000_0000_0000_0000u64 >> 63u64 == 0u64) by (bit_vector);
    assert(0x4000_0000_0000_0000u64 & 0x7FFF_FFFF_FFFF_FFFFu64 == 0x4000_0000_0000_0000u64)
        by (bit_vector);
    assert(0x4000_0000_0000_0000u64 >> 63u64 == 0u64) by (bit_vector);
    assert(0xC000_0000_0000_0000u64 & 0x7FFF_FFFF_FFFF_FFFFu64 == 0x4000_0000_0000_0000u64)
        by (bit_vector);
    assert(0xC000_0000_0000_0000u64 >> 63u64 == 1u64) by (bit_vector);
    assert(0x4000_0000_0000_0001u64 & 0x7FFF_FFFF_FFFF_FFFFu64 == 0x4000_0000_0000_0001u64)
        by (bit_vector);
    assert(0x4000_0000_0000_0001u64 >> 63u64 == 0u64) by (bit_vector);
    assert(0xC000_0000_0000_0001u64 & 0x7FFF_FFFF_FFFF_FFFFu64 == 0x4000_0000_0000_0001u64)
        by (bit_vector);
    assert(0xC000_0000_0000_0001u64 >> 63u64 == 1u64) by (bit_vector);
    assert(0x8000_0000_0000_0001u64 & 0x7FFF_FFFF_FFFF_FFFFu64 == 1u64) by (bit_vector);
    assert(0x8000_0000_0000_0001u64 >> 63u64 == 1u64) by (bit_vector);
}

/// The refinement follows its prerequisite: right after log probabilities
/// are set to a flag, the most likely tokens are accepted exactly when the
/// flag is true; before log probabilities are set at all, they are refused.
pub proof fn lemma_top_logprobs_needs_logprobs(v: ChatBuilderView, flag: bool)
    ensures
        accepts_top_logprobs(ChatBuilderView { logprobs: Some(flag), ..v }) == flag,
        v.logprobs is None ==> !accepts_top_logprobs(v),
{
}

/// A completion as the service returned it.
#[derive(Clone, Debug)]
pub struct ChatCompletion {
    pub id: String,
    pub choices: Vec<Choice>,
    pub created: i64,
    pub model: String,
    pub system_fingerprint: Option<String>,
    pub object: String,
    pub usage: Usage,
}

/// A streamed piece of a completion.
#[derive(Clone, Debug)]
pub struct ChatCompletionChunk {
    pub id: String,
    pub choices: Vec<Choice>,
    pub created: i64,
    pub model: String,
    pub system_fingerprint: Option<String>,
    pub object: String,
}

#[derive(Clone, Debug)]
pub struct Choice {
    pub finish_reason: Option<String>,
    pub index: u32,
    pub logprobs: Option<LogProbChoice>,
    pub message: Option<GeneralMessage>,
    pub delta: Option<Delta>,
}

#[derive(Clone, Debug)]
pub struct Delta {
    pub content: Option<String>,
    pub tool_calls: Vec<ToolCalls>,
    pub role: String,
}

#[derive(Clone, Debug)]
pub struct LogProbChoice {
    pub content: LogProb,
}

/// A token's log probability, as its binary64 encoding.
#[derive(Clone, Debug)]
pub struct LogProb {
    pub token: String,
    pub logprob: u64,
    pub bytes: Option<Vec<u8>>,
    pub top_logprobs: Option<Vec<TopLogProb>>,
}

/// One of the likeliest tokens at a position, with its log probability as
/// its binary64 encoding.
#[derive(Clone, Debug)]
pub struct TopLogProb {
    pub token: String,
    pub logprob: u64,
    pub bytes: Option<Vec<u8>>,
}

impl ChatBuilder {
    pub fn messages(&self) -> (r: &Vec<CompletionMessage>)
        ensures
            r@ == self@.messages,
    {
        &self.messages
    }

    pub fn model(&self) -> (r: &String)
        ensures
            r@ == self@.model,
    {
        &self.model
    }

    pub fn frequency_penalty(&self) -> (r: Option<u64>)
        ensures
            r == self@.frequency_penalty,
    {
        self.frequency_penalty
    }

    pub fn logit_bias(&self) -> (r: &Option<HashMap<u32, i32>>)
        ensures
            opt_map(*r) == self@.logit_bias,
    {
        &self.logit_bias
    }

    pub fn logprobs(&self) -> (r: Option<bool>)
        ensures
            r == self@.logprobs,
    {
        self.logprobs
    }

    pub fn top_logprobs(&self) -> (r: Option<i8>)
        ensures
            r == self@.top_logprobs,
    {
        self.top_logprobs
    }

    pub fn max_tokens(&self) -> (r: Option<i32>)
        ensures
            r == self@.max_tokens,
    {
        self.max_tokens
    }

    pub fn n(&self) -> (r: Option<i8>)
        ensures
            r == self@.n,
    {
        self.n
    }

    pub fn presence_penalty(&self) -> (r: Option<u64>)
        ensures
            r == self@.presence_penalty,
    {
        self.presence_penalty
    }

    pub fn response_format(&self) -> (r: &Option<HashMap<String, String>>)
        ensures
            opt_map(*r) == self@.response_format,
    {
        &self.response_format
    }

    pub fn seed(&self) -> (r: Option<i32>)
        ensures
            r == self@.seed,
    {
        self.seed
    }

    pub fn stop(&self) -> (r: &Vec<String>)
        ensures
            strs(r@) == self@.stop,
    {
        &self.stop
    }

    pub fn stream(&self) -> (r: Option<bool>)
        ensures
            r == self@.stream,
    {
        self.stream
    }

    pub fn temperature(&self) -> (r: Option<u64>)
        ensures
            r == self@.temperature,
    {
        self.temperature
    }

    pub fn top_p(&self) -> (r: Option<u64>)
        ensures
            r == self@.top_p,
    {
        self.top_p
    }

    pub fn tools(&self) -> (r: &Vec<Tools>)
        ensures
            r@ == self@.tools,
    {
        &self.tools
    }

    pub fn tool_choice(&self) -> (r: &Option<String>)
        ensures
            opt_str(*r) == self@.tool_choice,
    {
        &self.tool_choice
    }

    pub fn user(&self) -> (r: &Option<String>)
        ensures
            opt_str(*r) == self@.user,
    {
        &self.user
    }
}

} // verus!
