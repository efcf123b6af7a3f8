use vstd::prelude::*;

use crate::cache::{after_begin, after_complete, flight_of, live_value, Flight, TtlCache};
use crate::keys::{
    annotations_view, keyless_key, keyless_verification_key, oci_digest_key, pub_key_key,
    pub_key_verification_key, KeylessInfo,
};

verus! {

/// Default capacity of the queue of capability requests.
pub const DEFAULT_CHANNEL_BUFF_SIZE: usize = 100;

/// A capability request of a guest.
pub enum CallbackRequestType {
    /// The digest of an image manifest.
    OciManifestDigest { image: String },
    /// Whether an image is signed by one of the given public keys.
    SigstorePubKeyVerify {
        image: String,
        pub_keys: Vec<String>,
        annotations: Option<Vec<(String, String)>>,
    },
    /// Whether an image is signed by one of the given keyless identities.
    SigstoreKeylessVerify {
        image: String,
        keyless: Vec<KeylessInfo>,
        annotations: Option<Vec<(String, String)>>,
    },
}

/// The payload answered to a capability request.
pub struct CallbackResponse {
    pub payload: Vec<u8>,
}

/// A value with whether it came from the cache or was just computed.
pub struct CachedValue<V> {
    pub value: V,
    pub was_cached: bool,
}

/// What a provider lookup tells its caller.
pub enum Lookup<V> {
    /// The live cached value.
    Cached(V),
    /// Nobody computes this key: call the backend and store the outcome
    /// under the key given.
    Compute(String),
    /// Another caller computes this key: ask again once it completes.
    Wait,
}

/// The lookup a cache decision yields for a key.
pub open spec fn lookup_of<V>(f: Flight, live: Option<V>, key: Seq<char>, r: Lookup<V>) -> bool {
    match f {
        Flight::Cached => r == Lookup::<V>::Cached(live->Some_0),
        Flight::Compute => r matches Lookup::Compute(k) && k@ == key,
        Flight::Wait => r is Wait,
    }
}

/// Looks `key` up in `cache` at `now`, for the value of a provider.
fn lookup_key<V: Copy>(cache: &mut TtlCache<V>, key: String, now: u64) -> (r: Lookup<V>)
    ensures
        lookup_of(flight_of(old(cache).state(), key@, now), live_value(old(cache).state().entries, key@, now), key@, r),
        final(cache).state() == after_begin(old(cache).state(), key@, now),
{
    match cache.begin(&key, now) {
        Flight::Cached => match cache.get(&key, now) {
            Some(v) => Lookup::Cached(*v),
            None => Lookup::Wait,
        },
        Flight::Compute => Lookup::Compute(key),
        Flight::Wait => Lookup::Wait,
    }
}

/// Looks up the manifest digest of `img` at `now`: a live cached digest,
/// or whether to query the registry or wait for the query in flight.
pub fn get_oci_digest_cached(cache: &mut TtlCache<String>, img: &str, now: u64) -> (r: Lookup<String>)
    ensures
        lookup_of(flight_of(old(cache).state(), img@, now), live_value(old(cache).state().entries, img@, now), img@, r),
        final(cache).state() == after_begin(old(cache).state(), img@, now),
{
    let key = oci_digest_key(img);
    match cache.begin(&key, now) {
        Flight::Cached => match cache.get(&key, now) {
            Some(v) => Lookup::Cached(v.clone()),
            None => Lookup::Wait,
        },
        Flight::Compute => Lookup::Compute(key),
        Flight::Wait => Lookup::Wait,
    }
}

/// Looks up the verification of `image` against `pub_keys` at `now`.
pub fn get_sigstore_pub_key_verification_cached(
    cache: &mut TtlCache<bool>,
    image: &str,
    pub_keys: &Vec<String>,
    annotations: &Option<Vec<(String, String)>>,
    now: u64,
) -> (r: Lookup<bool>)
    ensures
        ({
            let k = pub_key_key(image@, pub_keys@, annotations_view(*annotations));
            &&& lookup_of(flight_of(old(cache).state(), k, now), live_value(old(cache).state().entries, k, now), k, r)
            &&& final(cache).state() == after_begin(old(cache).state(), k, now)
        }),
{
    let key = pub_key_verification_key(image, pub_keys, annotations);
    lookup_key(cache, key, now)
}

/// Looks up the verification of `image` against keyless identities at `now`.
pub fn get_sigstore_keyless_verification_cached(
    cache: &mut TtlCache<bool>,
    image: &str,
    keyless: &Vec<KeylessInfo>,
    annotations: &Option<Vec<(String, String)>>,
    now: u64,
) -> (r: Lookup<bool>)
    ensures
        ({
            let k = keyless_key(image@, keyless@, annotations_view(*annotations));
            &&& lookup_of(flight_of(old(cache).state(), k, now), live_value(old(cache).state().entries, k, now), k, r)
            &&& final(cache).state() == after_begin(old(cache).state(), k, now)
        }),
{
    let key = keyless_verification_key(image, keyless, annotations);
    lookup_key(cache, key, now)
}

/// The outcome to remember of a backend result: only a success.
pub open spec fn success_of<V>(result: Result<V, String>) -> Option<V> {
    match result {
        Ok(v) => Some(v),
        Err(_) => None,
    }
}

/// Ends a verification of `key` with the backend's `result` at `now`:
/// a success is cached and handed back as freshly computed, a failure is
/// handed back and not cached.
pub fn store_verification(cache: &mut TtlCache<bool>, key: String, result: Result<bool, String>, now: u64) -> (r: Result<CachedValue<bool>, String>)
    ensures
        final(cache).state() == after_complete(old(cache).state(), key@, success_of(result), now),
        result matches Ok(v) ==> r matches Ok(c) && c.value == v && !c.was_cached,
        result matches Err(e) ==> r == Err::<CachedValue<bool>, String>(e),
{
    match result {
        Ok(v) => {
            cache.complete(key, Some(v), now);
            Ok(CachedValue { value: v, was_cached: false })
        },
        Err(e) => {
            cache.complete(key, None, now);
            Err(e)
        },
    }
}

/// Ends a digest query of `key` with the registry's `result` at `now`.
pub fn store_digest(cache: &mut TtlCache<String>, key: String, result: Result<String, String>, now: u64) -> (r: Result<CachedValue<String>, String>)
    ensures
        final(cache).state() == after_complete(old(cache).state(), key@, success_of(result), now),
        result matches Ok(v) ==> r matches Ok(c) && c.value == v && !c.was_cached,
        result matches Err(e) ==> r == Err::<CachedValue<String>, String>(e),
{
    match result {
        Ok(v) => {
            let kept = v.clone();
            cache.complete(key, Some(kept), now);
            Ok(CachedValue { value: v, was_cached: false })
        },
        Err(e) => {
            cache.complete(key, None, now);
            Err(e)
        },
    }
}

/// The answer to a digest request: the digest's bytes.
pub fn digest_response(digest: &String) -> (r: CallbackResponse)
    ensures
        r.payload@ == vstd::utf8::encode_utf8(digest@),
{
    CallbackResponse { payload: vstd::slice::slice_to_vec(digest.as_str().as_bytes()) }
}

/// The byte a verification outcome is answered with.
pub open spec fn trust_byte(trusted: bool) -> u8 {
    if trusted { 1 } else { 0 }
}

/// The answer to a verification request: one byte, 1 when trusted and 0
/// otherwise.
pub fn verification_response(trusted: bool) -> (r: CallbackResponse)
    ensures
        r.payload@ == seq![trust_byte(trusted)],
{
    let b: u8 = if trusted { 1 } else { 0 };
    CallbackResponse { payload: vec![b] }
}

/// Whether a message is waiting in the request queue.
#[derive(PartialEq, Eq, Structural, Clone, Copy, Debug)]
pub enum MessagePoll {
    /// No message yet.
    Pending,
    /// Every sender is gone: no message will come.
    Closed,
    /// A message can be taken.
    Ready,
}

/// What the bridge loop does next.
#[derive(PartialEq, Eq, Structural, Clone, Copy, Debug)]
pub enum LoopStep {
    /// Leave the loop for good.
    Stop,
    /// Take the waiting message and serve it.
    Serve,
    /// Wait for the shutdown signal or a message.
    Idle,
}

/// The loop's next step: a stopped loop stays stopped; the shutdown signal
/// is looked at before the queue, so a burst of requests never starves it.
pub open spec fn next_step(stopped: bool, shutdown_signalled: bool, msg: MessagePoll) -> LoopStep {
    if stopped || shutdown_signalled {
        LoopStep::Stop
    } else {
        match msg {
            MessagePoll::Closed => LoopStep::Stop,
            MessagePoll::Ready => LoopStep::Serve,
            MessagePoll::Pending => LoopStep::Idle,
        }
    }
}

/// Once the shutdown signal is seen the loop stops, whatever is queued, and
/// serves nothing afterwards.
pub proof fn lemma_shutdown_stops_the_loop(stopped: bool, msg: MessagePoll, later_signal: bool, later_msg: MessagePoll)
    ensures
        next_step(stopped, true, msg) == LoopStep::Stop,
        next_step(true, later_signal, later_msg) == LoopStep::Stop,
{
}

/// What the bridge does with one request.
pub enum Dispatch {
    /// Answer at once with a cached value.
    Reply(CallbackResponse),
    /// Query the backend and conclude under this key.
    Fetch(String),
    /// The same query is in flight: serve the request again once it ends.
    Wait,
}

/// The cache key of a request.
pub open spec fn request_key(req: CallbackRequestType) -> Seq<char> {
    match req {
        CallbackRequestType::OciManifestDigest { image } => image@,
        CallbackRequestType::SigstorePubKeyVerify { image, pub_keys, annotations } =>
            pub_key_key(image@, pub_keys@, annotations_view(annotations)),
        CallbackRequestType::SigstoreKeylessVerify { image, keyless, annotations } =>
            keyless_key(image@, keyless@, annotations_view(annotations)),
    }
}

/// The asynchronous side of capability requests: one cache per kind of
/// request, and whether its loop has stopped.
pub struct CallbackHandler {
    pub digests: TtlCache<String>,
    pub pub_key_verifications: TtlCache<bool>,
    pub keyless_verifications: TtlCache<bool>,
    pub stopped: bool,
}

impl CallbackHandler {
    /// A running handler with empty caches.
    pub fn new() -> (r: CallbackHandler)
        ensures
            !r.stopped,
            r.digests.state().entries.is_empty() && r.digests.state().pending.is_empty(),
            r.pub_key_verifications.state().entries.is_empty() && r.pub_key_verifications.state().pending.is_empty(),
            r.keyless_verifications.state().entries.is_empty() && r.keyless_verifications.state().pending.is_empty(),
    {
        CallbackHandler {
            digests: TtlCache::new(),
            pub_key_verifications: TtlCache::new(),
            keyless_verifications: TtlCache::new(),
            stopped: false,
        }
    }

    /// Decides the loop's next step and records a stop.
    pub fn step(&mut self, shutdown_signalled: bool, msg: MessagePoll) -> (r: LoopStep)
        ensures
            r == next_step(old(self).stopped, shutdown_signalled, msg),
            final(self).stopped == (r == LoopStep::Stop),
            final(self).digests == old(self).digests,
            final(self).pub_key_verifications == old(self).pub_key_verifications,
            final(self).keyless_verifications == old(self).keyless_verifications,
    {
        let r = if self.stopped || shutdown_signalled {
            LoopStep::Stop
        } else {
            match msg {
                MessagePoll::Closed => LoopStep::Stop,
                MessagePoll::Ready => LoopStep::Serve,
                MessagePoll::Pending => LoopStep::Idle,
            }
        };
        if let LoopStep::Stop = r {
            self.stopped = true;
        }
        r
    }

    /// Routes a request to the cache of its kind: answers it from a live
    /// cached value, or says to query the backend, or to wait for the query
    /// in flight. The other caches are left as they are.
    pub fn dispatch(&mut self, req: &CallbackRequestType, now: u64) -> (r: Dispatch)
        ensures
            final(self).stopped == old(self).stopped,
            ({
                let k = request_key(*req);
                match *req {
                    CallbackRequestType::OciManifestDigest { .. } => {
                        let s = old(self).digests.state();
                        &&& final(self).digests.state() == after_begin(s, k, now)
                        &&& final(self).pub_key_verifications == old(self).pub_key_verifications
                        &&& final(self).keyless_verifications == old(self).keyless_verifications
                        &&& dispatched(flight_of(s, k, now), k, r)
                        &&& flight_of(s, k, now) == Flight::Cached ==> (r matches Dispatch::Reply(c)
                            && c.payload@ == vstd::utf8::encode_utf8(live_value(s.entries, k, now)->Some_0@))
                    },
                    CallbackRequestType::SigstorePubKeyVerify { .. } => {
                        let s = old(self).pub_key_verifications.state();
                        &&& final(self).pub_key_verifications.state() == after_begin(s, k, now)
                        &&& final(self).digests == old(self).digests
                        &&& final(self).keyless_verifications == old(self).keyless_verifications
                        &&& dispatched(flight_of(s, k, now), k, r)
                        &&& flight_of(s, k, now) == Flight::Cached ==> (r matches Dispatch::Reply(c)
                            && c.payload@ == seq![trust_byte(live_value(s.entries, k, now)->Some_0)])
                    },
                    CallbackRequestType::SigstoreKeylessVerify { .. } => {
                        let s = old(self).keyless_verifications.state();
                        &&& final(self).keyless_verifications.state() == after_begin(s, k, now)
                        &&& final(self).digests == old(self).digests
                        &&& final(self).pub_key_verifications == old(self).pub_key_verifications
                        &&& dispatched(flight_of(s, k, now), k, r)
                        &&& flight_of(s, k, now) == Flight::Cached ==> (r matches Dispatch::Reply(c)
                            && c.payload@ == seq![trust_byte(live_value(s.entries, k, now)->Some_0)])
                    },
                }
            }),
    {
        match req {
            CallbackRequestType::OciManifestDigest { image } => {
                match get_oci_digest_cached(&mut self.digests, image.as_str(), now) {
                    Lookup::Cached(d) => Dispatch::Reply(digest_response(&d)),
                    Lookup::Compute(k) => Dispatch::Fetch(k),
                    Lookup::Wait => Dispatch::Wait,
                }
            },
            CallbackRequestType::SigstorePubKeyVerify { image, pub_keys, annotations } => {
                match get_sigstore_pub_key_verification_cached(&mut self.pub_key_verifications, image.as_str(), pub_keys, annotations, now) {
                    Lookup::Cached(t) => Dispatch::Reply(verification_response(t)),
                    Lookup::Compute(k) => Dispatch::Fetch(k),
                    Lookup::Wait => Dispatch::Wait,
                }
            },
            CallbackRequestType::SigstoreKeylessVerify { image, keyless, annotations } => {
                match get_sigstore_keyless_verification_cached(&mut self.keyless_verifications, image.as_str(), keyless, annotations, now) {
                    Lookup::Cached(t) => Dispatch::Reply(verification_response(t)),
                    Lookup::Compute(k) => Dispatch::Fetch(k),
                    Lookup::Wait => Dispatch::Wait,
                }
            },
        }
    }

    /// Ends the registry query of a digest request under `key` with its
    /// `result` at `now`, and answers it: the digest's bytes, or the error.
    pub fn conclude_digest(&mut self, key: String, result: Result<String, String>, now: u64) -> (r: Result<CallbackResponse, String>)
        ensures
            final(self).digests.state() == after_complete(old(self).digests.state(), key@, success_of(result), now),
            final(self).pub_key_verifications == old(self).pub_key_verifications,
            final(self).keyless_verifications == old(self).keyless_verifications,
            final(self).stopped == old(self).stopped,
            result matches Ok(d) ==> r matches Ok(c) && c.payload@ == vstd::utf8::encode_utf8(d@),
            result matches Err(e) ==> r == Err::<CallbackResponse, String>(e),
    {
        match store_digest(&mut self.digests, key, result, now) {
            Ok(c) => Ok(digest_response(&c.value)),
            Err(e) => Err(e),
        }
    }

    /// Ends the backend verification of a request under `key` with its
    /// `result` at `now`, and answers it: the trust byte, or the error.
    /// `keyless` tells which kind of verification it was.
    pub fn conclude_verification(&mut self, keyless: bool, key: String, result: Result<bool, String>, now: u64) -> (r: Result<CallbackResponse, String>)
        ensures
            !keyless ==> final(self).pub_key_verifications.state()
                == after_complete(old(self).pub_key_verifications.state(), key@, success_of(result), now)
                && final(self).keyless_verifications == old(self).keyless_verifications,
            keyless ==> final(self).keyless_verifications.state()
                == after_complete(old(self).keyless_verifications.state(), key@, success_of(result), now)
                && final(self).pub_key_verifications == old(self).pub_key_verifications,
            final(self).digests == old(self).digests,
            final(self).stopped == old(self).stopped,
            result matches Ok(t) ==> r matches Ok(c) && c.payload@ == seq![trust_byte(t)],
            result matches Err(e) ==> r == Err::<CallbackResponse, String>(e),
    {
        let stored = if keyless {
            store_verification(&mut self.keyless_verifications, key, result, now)
        } else {
            store_verification(&mut self.pub_key_verifications, key, result, now)
        };
        match stored {
            Ok(c) => Ok(verification_response(c.value)),
            Err(e) => Err(e),
        }
    }
}

/// The dispatch a cache decision yields for a key.
pub open spec fn dispatched(f: Flight, key: Seq<char>, r: Dispatch) -> bool {
    match f {
        Flight::Cached => r is Reply,
        Flight::Compute => r matches Dispatch::Fetch(k) && k@ == key,
        Flight::Wait => r is Wait,
    }
}

/// Errors of building the bridge.
#[derive(PartialEq, Eq, Structural, Clone, Copy, Debug)]
pub enum BridgeError {
    /// The shutdown signal, which the bridge needs to stop, was not given.
    MissingShutdownChannel,
    /// A request queue cannot have a capacity of zero.
    ZeroChannelBuffer,
}

/// What a bridge is started from: the handler, the registry access, the
/// capacity of the request queue and the shutdown signal. `R` holds the
/// registry sources, `K` the registry credentials and `D` the receiving end
/// of the shutdown signal.
pub struct BridgeSetup<R, K, D> {
    pub handler: CallbackHandler,
    pub oci_sources: Option<R>,
    pub docker_config: Option<K>,
    pub channel_buffer_size: usize,
    pub shutdown_channel: D,
}

/// Collects the options of a bridge.
pub struct CallbackHandlerBuilder<R, K, D> {
    pub oci_sources: Option<R>,
    pub docker_config: Option<K>,
    pub channel_buffer_size: usize,
    pub shutdown_channel: Option<D>,
}

impl<R, K, D> Default for CallbackHandlerBuilder<R, K, D> {
    fn default() -> (r: Self)
        ensures
            r.oci_sources is None,
            r.docker_config is None,
            r.channel_buffer_size == DEFAULT_CHANNEL_BUFF_SIZE,
            r.shutdown_channel is None,
    {
        CallbackHandlerBuilder {
            oci_sources: None,
            docker_config: None,
            channel_buffer_size: DEFAULT_CHANNEL_BUFF_SIZE,
            shutdown_channel: None,
        }
    }
}

impl<R, K, D> CallbackHandlerBuilder<R, K, D> {
    /// Sets what is needed to reach image registries.
    pub fn registry_config(self, sources: Option<R>, docker_config: Option<K>) -> (r: Self)
        ensures
            r == (CallbackHandlerBuilder { oci_sources: sources, docker_config, ..self }),
    {
        CallbackHandlerBuilder { oci_sources: sources, docker_config, ..self }
    }

    /// Sets the capacity of the request queue.
    pub fn channel_buffer_size(self, size: usize) -> (r: Self)
        ensures
            r == (CallbackHandlerBuilder { channel_buffer_size: size, ..self }),
    {
        CallbackHandlerBuilder { channel_buffer_size: size, ..self }
    }

    /// Sets the signal that stops the bridge loop.
    pub fn shutdown_channel(self, shutdown_channel: D) -> (r: Self)
        ensures
            r == (CallbackHandlerBuilder { shutdown_channel: Some(shutdown_channel), ..self }),
    {
        CallbackHandlerBuilder { shutdown_channel: Some(shutdown_channel), ..self }
    }

    /// Checks the options and yields a running handler with empty caches.
    /// Fails without a shutdown signal, or with a queue capacity of zero.
    pub fn build(self) -> (r: Result<BridgeSetup<R, K, D>, BridgeError>)
        ensures
            self.shutdown_channel is None
                ==> r == Err::<BridgeSetup<R, K, D>, BridgeError>(BridgeError::MissingShutdownChannel),
            self.shutdown_channel is Some && self.channel_buffer_size == 0
                ==> r == Err::<BridgeSetup<R, K, D>, BridgeError>(BridgeError::ZeroChannelBuffer),
            self.shutdown_channel is Some && self.channel_buffer_size > 0 ==> {
                &&& r is Ok
                &&& r->Ok_0.oci_sources == self.oci_sources
                &&& r->Ok_0.docker_config == self.docker_config
                &&& r->Ok_0.channel_buffer_size == self.channel_buffer_size
                &&& r->Ok_0.shutdown_channel == self.shutdown_channel->Some_0
                &&& !r->Ok_0.handler.stopped
                &&& r->Ok_0.handler.digests.state().entries.is_empty()
                &&& r->Ok_0.handler.digests.state().pending.is_empty()
                &&& r->Ok_0.handler.pub_key_verifications.state().entries.is_empty()
                &&& r->Ok_0.handler.pub_key_verifications.state().pending.is_empty()
                &&& r->Ok_0.handler.keyless_verifications.state().entries.is_empty()
                &&& r->Ok_0.handler.keyless_verifications.state().pending.is_empty()
            },
    {
        let shutdown_channel = match self.shutdown_channel {
            Some(d) => d,
            None => {
                return Err(BridgeError::MissingShutdownChannel);
            },
        };
        if self.channel_buffer_size == 0 {
            return Err(BridgeError::ZeroChannelBuffer);
        }
        Ok(BridgeSetup {
            handler: CallbackHandler::new(),
            oci_sources: self.oci_sources,
            docker_config: self.docker_config,
            channel_buffer_size: self.channel_buffer_size,
            shutdown_channel,
        })
    }
}

} // verus!
