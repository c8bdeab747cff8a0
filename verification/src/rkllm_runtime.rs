//! The runtime registry: a process-wide cache of initialized engine
//! instances, keyed by the configuration signature of the request that
//! first needed each one.
//!
//! Initialization of the native engine happens outside this library;
//! the registry's contract is split accordingly.  [`RkllmRuntime::get_request_model`]
//! decides whether a request's signature is already served or needs a
//! native initialization, and [`RkllmRuntime::apply_init_result`] folds the
//! outcome of that initialization back in: success caches the new instance
//! under its signature and nothing else, failure caches nothing, so a later
//! request with the same signature tries again.
//!
//! The laws proved here:
//! - requests with equal model identifier and equal options resolve to the
//!   same engine instance ([`lemma_cache_identity`]);
//! - requests that differ in the model identifier or in any single option
//!   field have distinct signatures ([`lemma_signature_distinct`]), and a
//!   successful initialization changes no other signature's entry
//!   (the ensures of [`RkllmRuntime::apply_init_result`]);
//! - a failed initialization leaves the registry exactly as it was
//!   (the ensures of [`RkllmRuntime::apply_init_result`]).

use vstd::prelude::*;
use vstd::string::StringExecFns;
use crate::api_models::{ChatCompletionRequest, GenerateRequest, ModelOptions, OptionsV};
use crate::session::{texts_of, FragmentPayload, Session, spec_classify, spec_step, fresh_session,
    spec_join_lines, classify_state, join_messages, SessionV};

verus! {

/// A completion request of either shape.
pub enum CompletionRequest {
    Generate(GenerateRequest),
    Chat(ChatCompletionRequest),
}

/// Wraps one opaque native handle and asserts, by construction, that it
/// may be passed freely between threads once created.  The handle value is
/// carried as a plain machine word; only native code ever interprets it.
#[derive(Clone, Copy, Debug, PartialEq, Eq, Structural)]
pub struct ThreadSafeLLMHandle(pub usize);

impl ThreadSafeLLMHandle {
    /// Wraps a raw native handle value.
    pub fn new(handle: usize) -> (r: ThreadSafeLLMHandle)
        ensures
            r.0 == handle,
    {
        ThreadSafeLLMHandle(handle)
    }

    /// The raw handle value, for use in native calls.
    pub fn as_llm_handle(&self) -> (r: usize)
        ensures
            r == self.0,
    {
        self.0
    }
}

/// One initialized engine instance: immutable once constructed, shared by
/// any number of inference calls.
#[derive(Clone, Copy, Debug, PartialEq, Eq, Structural)]
pub struct RkllmModel {
    /// The engine handle this instance was initialized with.
    pub handle: ThreadSafeLLMHandle,
}

/// Errors the bridge can surface to its caller.
#[derive(Clone, Copy, Debug, PartialEq, Eq, Structural)]
pub enum RuntimeError {
    /// The native initialization call returned this non-zero status.
    InitializationFailed(i32),
    /// The native run call was rejected with this non-zero status before
    /// any callback fired.
    InvocationFailed(i32),
}

/// The cache key derived from a request: the model identifier and every
/// sampling option that affects native initialization.
#[derive(Clone, Debug)]
pub struct SignatureKey {
    /// Model identifier of the request.
    pub model: String,
    /// Sampling options of the request.
    pub options: ModelOptions,
}

/// Mathematical value of a configuration signature.
#[verifier::ext_equal]
pub ghost struct SigV {
    pub model: Seq<char>,
    pub options: OptionsV,
}

impl View for SignatureKey {
    type V = SigV;

    open spec fn view(&self) -> SigV {
        SigV { model: self.model@, options: self.options@ }
    }
}

/// The model identifier a request carries.
pub open spec fn request_model(r: CompletionRequest) -> Seq<char> {
    match r {
        CompletionRequest::Generate(g) => g.model@,
        CompletionRequest::Chat(c) => c.model@,
    }
}

/// The sampling options a request carries.
pub open spec fn request_options(r: CompletionRequest) -> OptionsV {
    match r {
        CompletionRequest::Generate(g) => g.options@,
        CompletionRequest::Chat(c) => c.options@,
    }
}

/// The configuration signature of a request: a pure, total function of
/// its model identifier and every option field.
pub open spec fn sig_of(r: CompletionRequest) -> SigV {
    SigV { model: request_model(r), options: request_options(r) }
}

/// The instance cached for signature `s` in `entries`, if any.
pub open spec fn lookup_entries(entries: Seq<(SignatureKey, RkllmModel)>, s: SigV) -> Option<
    RkllmModel,
>
    decreases entries.len(),
{
    if entries.len() == 0 {
        None
    } else if entries[0].0@ == s {
        Some(entries[0].1)
    } else {
        lookup_entries(entries.drop_first(), s)
    }
}

/// A signature is absent exactly when no entry carries it.
proof fn lemma_lookup_none_iff_absent(entries: Seq<(SignatureKey, RkllmModel)>, s: SigV)
    ensures
        lookup_entries(entries, s) is None <==> forall|i: int|
            0 <= i < entries.len() ==> (#[trigger] entries[i]).0@ != s,
    decreases entries.len(),
{
    if entries.len() > 0 {
        lemma_lookup_none_iff_absent(entries.drop_first(), s);
        assert(forall|i: int|
            1 <= i < entries.len() ==> entries.drop_first()[i - 1] == #[trigger] entries[i]);
        if entries[0].0@ != s && lookup_entries(entries.drop_first(), s) is None {
            assert(forall|i: int|
                0 <= i < entries.len() ==> (#[trigger] entries[i]).0@ != s) by {
                assert(forall|i: int|
                    1 <= i < entries.len() ==> (#[trigger] entries[i]) == entries.drop_first()[i
                        - 1]);
            }
        }
    }
}

/// Appending an entry serves its own signature and changes no other.
proof fn lemma_lookup_push(
    entries: Seq<(SignatureKey, RkllmModel)>,
    k: SignatureKey,
    m: RkllmModel,
    s: SigV,
)
    ensures
        lookup_entries(entries.push((k, m)), s) == (if lookup_entries(entries, s) is Some {
            lookup_entries(entries, s)
        } else if k@ == s {
            Some(m)
        } else {
            None
        }),
    decreases entries.len(),
{
    if entries.len() == 0 {
        assert(entries.push((k, m)).drop_first() =~= entries);
    } else {
        assert(entries.push((k, m))[0] == entries[0]);
        assert(entries.push((k, m)).drop_first() =~= entries.drop_first().push((k, m)));
        lemma_lookup_push(entries.drop_first(), k, m, s);
    }
}

/// Duplicates a list of texts, value for value.
fn clone_strings(v: &Vec<String>) -> (r: Vec<String>)
    ensures
        r@ == v@,
{
    let mut r: Vec<String> = Vec::new();
    let mut i: usize = 0;
    while i < v.len()
        invariant
            i <= v.len(),
            r@ == v@.take(i as int),
        decreases v.len() - i,
    {
        r.push(v[i].clone());
        proof {
            assert(r@ =~= v@.take(i as int + 1));
        }
        i = i + 1;
    }
    proof {
        assert(v@.take(v@.len() as int) =~= v@);
    }
    r
}

/// Duplicates a set of options, value for value.
fn clone_options(o: &ModelOptions) -> (r: ModelOptions)
    ensures
        r@ == o@,
{
    let r = ModelOptions {
        num_ctx: o.num_ctx,
        repeat_last_n: o.repeat_last_n,
        repeat_penalty_bits: o.repeat_penalty_bits,
        temperature_bits: o.temperature_bits,
        seed: o.seed,
        stop: clone_strings(&o.stop),
        num_predict: o.num_predict,
        top_k: o.top_k,
        top_p_bits: o.top_p_bits,
        min_p_bits: o.min_p_bits,
    };
    proof {
        assert(r@ =~= o@);
    }
    r
}

impl SignatureKey {
    /// Whether two keys denote the same configuration signature.
    pub fn key_eq(&self, other: &SignatureKey) -> (r: bool)
        ensures
            r == (self@ == other@),
    {
        if !(self.model == other.model) {
            return false;
        }
        if self.options.num_ctx != other.options.num_ctx || self.options.repeat_last_n
            != other.options.repeat_last_n || self.options.repeat_penalty_bits
            != other.options.repeat_penalty_bits || self.options.temperature_bits
            != other.options.temperature_bits || self.options.seed != other.options.seed
            || self.options.num_predict != other.options.num_predict || self.options.top_k
            != other.options.top_k || self.options.top_p_bits != other.options.top_p_bits
            || self.options.min_p_bits != other.options.min_p_bits {
            return false;
        }
        if self.options.stop.len() != other.options.stop.len() {
            proof {
                assert(texts_of(self.options.stop@).len() == self.options.stop@.len());
                assert(texts_of(other.options.stop@).len() == other.options.stop@.len());
            }
            return false;
        }
        let mut i: usize = 0;
        while i < self.options.stop.len()
            invariant
                i <= self.options.stop.len(),
                self.options.stop.len() == other.options.stop.len(),
                forall|j: int|
                    0 <= j < i ==> texts_of(self.options.stop@)[j] == texts_of(
                        other.options.stop@,
                    )[j],
            decreases self.options.stop.len() - i,
        {
            if !(self.options.stop[i] == other.options.stop[i]) {
                proof {
                    assert(texts_of(self.options.stop@)[i as int] == self.options.stop@[i as int]@);
                    assert(texts_of(other.options.stop@)[i as int] == other.options.stop@[i as int]@);
                    assert(self@.options.stop != other@.options.stop);
                }
                return false;
            }
            i = i + 1;
        }
        proof {
            assert(texts_of(self.options.stop@) =~= texts_of(other.options.stop@));
            assert(self@ =~= other@);
        }
        true
    }
}

/// The registry itself: the signature-to-instance cache.  Exclusive access
/// during resolve-or-create is the caller's duty (one coarse lock around
/// the whole path); the contracts here describe what each step does to the
/// cache under that exclusive access.
#[derive(Debug)]
pub struct RkllmRuntime {
    /// The cached instances, one per distinct signature.
    pub running_models: Vec<(SignatureKey, RkllmModel)>,
}

/// What resolving a request against the registry requires next.
pub enum ModelResolution {
    /// The signature is cached; use this instance.
    Ready(RkllmModel),
    /// The signature is not cached; initialize an engine for this key.
    RequiresInit(SignatureKey),
}

impl RkllmRuntime {
    /// No two entries serve the same signature.
    pub open spec fn wf(&self) -> bool {
        forall|i: int, j: int|
            0 <= i < j < self.running_models@.len() ==> (#[trigger] self.running_models@[i]).0@ != (
            #[trigger] self.running_models@[j]).0@
    }

    /// The instance cached for signature `s`, if any.
    pub open spec fn spec_lookup(&self, s: SigV) -> Option<RkllmModel> {
        lookup_entries(self.running_models@, s)
    }

    /// Creates an empty registry: no signature has an instance yet.
    pub fn new() -> (r: RkllmRuntime)
        ensures
            r.wf(),
            forall|s: SigV| r.spec_lookup(s) is None,
    {
        RkllmRuntime { running_models: Vec::new() }
    }

    /// Derives the cache key of a request: its model identifier together
    /// with every sampling option field.
    pub fn parse_request_model_key(request: &CompletionRequest) -> (k: SignatureKey)
        ensures
            k@ == sig_of(*request),
    {
        let (model, options) = match request {
            CompletionRequest::Generate(req) => (req.model.clone(), clone_options(&req.options)),
            CompletionRequest::Chat(req) => (req.model.clone(), clone_options(&req.options)),
        };
        let k = SignatureKey { model, options };
        proof {
            assert(k@ =~= sig_of(*request));
        }
        k
    }

    /// The instance cached for `key`, if any.
    pub fn lookup_model(&self, key: &SignatureKey) -> (r: Option<RkllmModel>)
        requires
            self.wf(),
        ensures
            r == self.spec_lookup(key@),
    {
        let n = self.running_models.len();
        proof {
            assert(self.running_models@.skip(0) =~= self.running_models@);
        }
        let mut i: usize = 0;
        while i < n
            invariant
                n == self.running_models@.len(),
                i <= n,
                lookup_entries(self.running_models@.skip(i as int), key@) == self.spec_lookup(
                    key@,
                ),
            decreases n - i,
        {
            let entry = &self.running_models[i];
            if entry.0.key_eq(key) {
                return Some(entry.1);
            }
            proof {
                assert(self.running_models@.skip(i as int).drop_first() =~= self.running_models@.skip(
                    i as int + 1,
                ));
            }
            i = i + 1;
        }
        proof {
            assert(self.running_models@.skip(n as int) =~= Seq::<
                (SignatureKey, RkllmModel),
            >::empty());
        }
        None
    }

    /// Resolves a request against the cache: either the instance its
    /// signature already has, or the key under which one must be
    /// initialized.  Pure with respect to the registry: nothing is
    /// inserted here.
    pub fn get_request_model(&self, request: &CompletionRequest) -> (r: ModelResolution)
        requires
            self.wf(),
        ensures
            match r {
                ModelResolution::Ready(m) => self.spec_lookup(sig_of(*request)) == Some(m),
                ModelResolution::RequiresInit(k) => self.spec_lookup(sig_of(*request)) is None
                    && k@ == sig_of(*request),
            },
    {
        let key = Self::parse_request_model_key(request);
        match self.lookup_model(&key) {
            Some(m) => ModelResolution::Ready(m),
            None => ModelResolution::RequiresInit(key),
        }
    }

    /// Folds the outcome of one native initialization back into the
    /// registry.  Success caches the new instance under its signature and
    /// leaves every other signature's entry untouched; failure caches
    /// nothing at all, so a later request with the same signature attempts
    /// initialization again.
    pub fn apply_init_result(&mut self, key: SignatureKey, outcome: Result<usize, i32>) -> (r:
        Result<RkllmModel, RuntimeError>)
        requires
            old(self).wf(),
            old(self).spec_lookup(key@) is None,
        ensures
            final(self).wf(),
            match outcome {
                Ok(handle) => {
                    &&& r == Ok::<RkllmModel, RuntimeError>(
                        RkllmModel { handle: ThreadSafeLLMHandle(handle) },
                    )
                    &&& final(self).spec_lookup(key@) == Some(
                        RkllmModel { handle: ThreadSafeLLMHandle(handle) },
                    )
                    &&& forall|s: SigV|
                        s != key@ ==> final(self).spec_lookup(s) == old(self).spec_lookup(s)
                },
                Err(status) => {
                    &&& r == Err::<RkllmModel, RuntimeError>(RuntimeError::InitializationFailed(status))
                    &&& final(self).running_models@ == old(self).running_models@
                },
            },
    {
        match outcome {
            Ok(handle) => {
                let model = RkllmModel { handle: ThreadSafeLLMHandle::new(handle) };
                proof {
                    lemma_lookup_none_iff_absent(self.running_models@, key@);
                    assert forall|s: SigV| true implies lookup_entries(
                        self.running_models@.push((key, model)),
                        s,
                    ) == (if lookup_entries(self.running_models@, s) is Some {
                        lookup_entries(self.running_models@, s)
                    } else if key@ == s {
                        Some(model)
                    } else {
                        None
                    }) by {
                        lemma_lookup_push(self.running_models@, key, model, s);
                    }
                }
                self.running_models.push((key, model));
                Ok(model)
            },
            Err(status) => Err(RuntimeError::InitializationFailed(status)),
        }
    }

    /// The on-disk path of the model a request names.  A fixed location in
    /// the current scope; model discovery is out of the bridge's scope.
    pub fn get_model_path(&self, model: &str) -> (r: String)
        ensures
            r@ == "/home/vanko/models/DeepSeek-R1-Distill-Qwen-1.5B_W8A8_RK3588.rkllm"@,
    {
        let _ = model;
        "/home/vanko/models/DeepSeek-R1-Distill-Qwen-1.5B_W8A8_RK3588.rkllm".to_owned()
    }

    /// Applies one raw callback invocation to a session: classifies the
    /// native state value, then steps the session's state machine.
    pub fn llm_result_callback(session: &mut Session, payload: FragmentPayload, state: i32)
        requires
            old(session)@.inv(),
        ensures
            final(session)@ == spec_step(old(session)@, spec_classify(state), payload),
            final(session)@.inv(),
    {
        let s = classify_state(state);
        session.on_callback(s, payload);
    }
}

/// Parameters handed to native initialization, assembled from a request's
/// options: each native field, as the plain value the engine receives.
pub struct InitParams {
    /// On-disk path of the model to load.
    pub model_path: String,
    /// Top-k sampling cutoff.
    pub top_k: i32,
    /// Bit pattern of the top-p cutoff.
    pub top_p_bits: u32,
    /// Bit pattern of the sampling temperature.
    pub temperature_bits: u32,
    /// Bit pattern of the repetition penalty.
    pub repeat_penalty_bits: u32,
    /// Bit pattern of the frequency penalty: always zero here.
    pub frequency_penalty_bits: u32,
    /// Bit pattern of the presence penalty: always zero here.
    pub presence_penalty_bits: u32,
    /// Token budget for the call.
    pub max_new_tokens: i32,
    /// Context window length.
    pub max_context_len: i32,
    /// Whether special tokens are skipped in output.
    pub skip_special_token: bool,
    /// Accelerator domain the instance binds to.
    pub base_domain_id: i32,
    /// Whether embeddings are kept in flash memory.
    pub embed_flash: u8,
}

/// Assembles the native initialization parameters for a model path and a
/// set of options, exactly as the engine is to receive them.
pub fn build_init_params(model_path: String, options: &ModelOptions) -> (p: InitParams)
    ensures
        p.model_path == model_path,
        p.top_k == options.top_k,
        p.top_p_bits == options.top_p_bits,
        p.temperature_bits == options.temperature_bits,
        p.repeat_penalty_bits == options.repeat_penalty_bits,
        p.frequency_penalty_bits == 0,
        p.presence_penalty_bits == 0,
        p.max_new_tokens == options.num_predict,
        p.max_context_len == options.num_ctx,
        p.skip_special_token == true,
        p.base_domain_id == 0,
        p.embed_flash == 1,
{
    InitParams {
        model_path,
        top_k: options.top_k,
        top_p_bits: options.top_p_bits,
        temperature_bits: options.temperature_bits,
        repeat_penalty_bits: options.repeat_penalty_bits,
        frequency_penalty_bits: 0,
        presence_penalty_bits: 0,
        max_new_tokens: options.num_predict,
        max_context_len: options.num_ctx,
        skip_special_token: true,
        base_domain_id: 0,
        embed_flash: 1,
    }
}

/// Native value of the inference mode that generates text.
pub const INFER_GENERATE_MODE: i32 = 0;

/// Parameters of one native run call.  The bridge always runs the engine
/// the same way: generate mode, no history retention, no prompt-cache
/// parameters and no adapter parameters.
pub struct RunParams {
    /// Inference mode the engine runs in.
    pub mode: i32,
    /// Whether the engine keeps conversation history across calls.
    pub keep_history: bool,
    /// Whether prompt-cache parameters are supplied.
    pub use_prompt_cache: bool,
    /// Whether adapter parameters are supplied.
    pub use_lora: bool,
}

/// Assembles the parameters of one native run call, exactly as the engine
/// is to receive them: generate mode, nothing retained, nothing cached,
/// no adapter.
pub fn build_run_params() -> (p: RunParams)
    ensures
        p.mode == INFER_GENERATE_MODE,
        p.keep_history == false,
        p.use_prompt_cache == false,
        p.use_lora == false,
{
    RunParams {
        mode: INFER_GENERATE_MODE,
        keep_history: false,
        use_prompt_cache: false,
        use_lora: false,
    }
}

impl RkllmModel {
    /// The compute half of starting one inference: joins the messages into
    /// the single prompt blob for the native run entry point and creates
    /// the session whose context that call will own.
    pub fn prepare_run(&self, messages: &Vec<String>) -> (r: (String, Session))
        ensures
            r.0@ == spec_join_lines(texts_of(messages@)),
            r.1@ == fresh_session(),
            r.1@.inv(),
    {
        (join_messages(messages), Session::new())
    }

    /// Settles ownership after the native run call returns its status.  A
    /// zero status means the native layer took the session's context and
    /// the trampoline will release it; a non-zero status means the call
    /// was rejected before any callback fired, so the caller releases the
    /// context here, exactly once, and reports the failure.
    pub fn complete_run_start(session: &mut Session, status: i32) -> (r: Result<(), RuntimeError>)
        requires
            old(session)@.inv(),
            old(session)@.live,
        ensures
            final(session)@.inv(),
            status == 0 ==> r == Ok::<(), RuntimeError>(()) && *final(session) == *old(session),
            status != 0 ==> {
                &&& r == Err::<(), RuntimeError>(RuntimeError::InvocationFailed(status))
                &&& final(session)@ == (SessionV {
                    live: false,
                    releases: old(session)@.releases + 1,
                    queue: old(session)@.queue,
                })
            },
    {
        if status != 0 {
            session.release();
            Err(RuntimeError::InvocationFailed(status))
        } else {
            Ok(())
        }
    }
}

/// Law: requests with equal model identifier and equal options have the
/// same configuration signature, and therefore resolve to the same cached
/// engine instance in any one registry.
pub proof fn lemma_cache_identity(rt: RkllmRuntime, r1: CompletionRequest, r2: CompletionRequest)
    requires
        request_model(r1) == request_model(r2),
        request_options(r1) == request_options(r2),
    ensures
        sig_of(r1) == sig_of(r2),
        rt.spec_lookup(sig_of(r1)) == rt.spec_lookup(sig_of(r2)),
{
}

/// Law: changing the model identifier or any single option field yields a
/// different configuration signature.
pub proof fn lemma_signature_distinct(s1: SigV, s2: SigV)
    requires
        s1.model != s2.model || s1.options.num_ctx != s2.options.num_ctx
            || s1.options.repeat_last_n != s2.options.repeat_last_n
            || s1.options.repeat_penalty_bits != s2.options.repeat_penalty_bits
            || s1.options.temperature_bits != s2.options.temperature_bits || s1.options.seed
            != s2.options.seed || s1.options.stop != s2.options.stop || s1.options.num_predict
            != s2.options.num_predict || s1.options.top_k != s2.options.top_k
            || s1.options.top_p_bits != s2.options.top_p_bits || s1.options.min_p_bits
            != s2.options.min_p_bits,
    ensures
        s1 != s2,
{
}

} // verus!
