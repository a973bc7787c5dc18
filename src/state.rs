//! The shared manifest cache: one manifest, its artists and its build time,
//! replaced together, behind a time-to-live policy.
//!
//! The caller keeps the state behind a single lock. For each request it
//! asks whether a rebuild is due, builds while still holding the lock where
//! it is, and hands the outcome to [`CyrkensiaState::hostinfo`].

use vstd::prelude::*;
use crate::artist::Artist;
use crate::config::Config;
use crate::error::ServeError;
use crate::hostinfo::{Hostinfo, HostinfoView};

verus! {

/// The outcome of one scan and build: the manifest and the artists it was
/// built with, or why it failed.
pub type Built = Result<(Hostinfo, Vec<Artist>), ServeError>;

/// The server's state: the configuration and the cached manifest entry.
#[derive(Debug)]
pub struct CyrkensiaState {
    /// The configuration the server was started with.
    pub config: Config,
    /// The latest manifest; unused where caching is off.
    pub hostinfo: Hostinfo,
    /// The artists the latest manifest was built with.
    pub artists: Vec<Artist>,
    /// When the latest manifest was built, in seconds of a monotonic clock.
    pub last_updated: u64,
}

/// Seconds from `last` to `now`, or zero where the clock reads earlier.
pub open spec fn elapsed(last: u64, now: u64) -> int {
    if now >= last {
        now - last
    } else {
        0
    }
}

impl CyrkensiaState {
    /// Whether a request at `now` must rebuild: always where caching is off,
    /// else once the time-to-live has passed since the last build.
    pub open spec fn stale_at(&self, now: u64) -> bool {
        match self.config.max_age {
            None => true,
            Some(ttl) => elapsed(self.last_updated, now) >= ttl,
        }
    }

    /// The state after a request at `now` that was handed `built`. Only a
    /// successful rebuild with caching on replaces the entry, all three parts
    /// at once.
    pub open spec fn after_get(self, now: u64, built: Option<Built>) -> CyrkensiaState {
        match (self.config.max_age, built) {
            (Some(_), Some(Ok((h, a)))) => CyrkensiaState {
                hostinfo: h,
                artists: a,
                last_updated: now,
                ..self
            },
            _ => self,
        }
    }

    /// What a request at `now` that was handed `built` replies: with caching
    /// off, the fresh manifest or the build's error; with caching on, the
    /// entry after the request, which a failed rebuild leaves as it was.
    pub open spec fn reply_of(self, now: u64, built: Option<Built>) -> Result<HostinfoView, ServeError> {
        match self.config.max_age {
            None => match built {
                Some(Ok((h, _))) => Ok(h@),
                Some(Err(e)) => Err(e),
                None => Err(ServeError::Io),
            },
            Some(_) => Ok(self.after_get(now, built).hostinfo@),
        }
    }

    /// Creates the state. With caching on, `built` is the first manifest and
    /// its artists; with caching off nothing is kept and an empty manifest
    /// stands in the entry.
    pub fn new(cfg: Config, built: Option<(Hostinfo, Vec<Artist>)>, now: u64) -> (r: CyrkensiaState)
        requires
            cfg.max_age is Some ==> built is Some,
        ensures
            r.config == cfg,
            r.last_updated == now,
            cfg.max_age is Some ==> match built {
                Some((h, a)) => r.hostinfo == h && r.artists == a,
                None => false,
            },
            cfg.max_age is None ==> {
                &&& r.hostinfo.name@.len() == 0
                &&& r.hostinfo.icon@.len() == 0
                &&& !r.hostinfo.secured
                &&& r.hostinfo.size == 0
                &&& r.hostinfo.origin@.len() == 0
                &&& r.hostinfo.albums@.len() == 0
                &&& r.hostinfo.owners@.len() == 0
                &&& r.hostinfo.artists@.len() == 0
                &&& r.artists@.len() == 0
            },
    {
        if cfg.max_age.is_some() {
            match built {
                Some((h, a)) => CyrkensiaState { config: cfg, hostinfo: h, artists: a, last_updated: now },
                None => CyrkensiaState {
                    config: cfg,
                    hostinfo: Hostinfo::empty(),
                    artists: Vec::new(),
                    last_updated: now,
                },
            }
        } else {
            CyrkensiaState { config: cfg, hostinfo: Hostinfo::empty(), artists: Vec::new(), last_updated: now }
        }
    }

    /// Whether a request at `now` must rebuild the manifest.
    pub fn needs_rebuild(&self, now: u64) -> (r: bool)
        ensures
            r == self.stale_at(now),
    {
        match self.config.max_age {
            None => true,
            Some(ttl) => {
                let age = if now >= self.last_updated {
                    now - self.last_updated
                } else {
                    0
                };
                age >= ttl
            },
        }
    }

    /// Serves a manifest request at `now`. `built` is the outcome of the
    /// rebuild, present exactly where [`Self::needs_rebuild`] asked for one.
    /// A successful rebuild replaces the cached entry; a failed one leaves it
    /// in place and the cached manifest is served.
    pub fn hostinfo(&mut self, now: u64, built: Option<Built>) -> (r: Result<Hostinfo, ServeError>)
        requires
            built is Some <==> old(self).stale_at(now),
        ensures
            *final(self) == old(self).after_get(now, built),
            match r {
                Ok(h) => old(self).reply_of(now, built) == Ok::<HostinfoView, ServeError>(h@),
                Err(e) => old(self).reply_of(now, built) == Err::<HostinfoView, ServeError>(e),
            },
    {
        if self.config.max_age.is_none() {
            return match built {
                Some(Ok((h, _))) => Ok(h),
                Some(Err(e)) => Err(e),
                None => Err(ServeError::Io),
            };
        }
        match built {
            Some(Ok((h, a))) => {
                self.hostinfo = h;
                self.artists = a;
                self.last_updated = now;
            },
            _ => {},
        }
        Ok(self.hostinfo.clone())
    }
}

/// Within the time-to-live no rebuild is due: two requests after a build
/// and before the time-to-live has passed both leave the entry, and its
/// build time, as they found it.
pub proof fn lemma_cached_within_ttl(s: CyrkensiaState, ttl: u64, t1: u64, t2: u64)
    requires
        s.config.max_age == Some(ttl),
        s.last_updated <= t1 <= t2,
        t2 - s.last_updated < ttl,
    ensures
        !s.stale_at(t1),
        s.after_get(t1, None) == s,
        !s.after_get(t1, None).stale_at(t2),
        s.after_get(t1, None).after_get(t2, None) == s,
        s.after_get(t1, None).after_get(t2, None).last_updated == s.last_updated,
{
}

/// Once the time-to-live has passed, one rebuild is due; after it succeeds
/// the entry carries the request's time, and no further rebuild is due
/// until the time-to-live has passed again.
pub proof fn lemma_one_rebuild_after_ttl(
    s: CyrkensiaState,
    ttl: u64,
    t1: u64,
    t2: u64,
    h: Hostinfo,
    a: Vec<Artist>,
)
    requires
        s.config.max_age == Some(ttl),
        s.last_updated <= t1,
        t1 - s.last_updated >= ttl,
        t1 <= t2,
        t2 - t1 < ttl,
    ensures
        s.stale_at(t1),
        s.after_get(t1, Some(Ok((h, a)))).last_updated == t1,
        s.after_get(t1, Some(Ok((h, a)))).hostinfo == h,
        !s.after_get(t1, Some(Ok((h, a)))).stale_at(t2),
{
}

/// A failed rebuild with caching on leaves the cached entry intact, and the
/// request is answered with the cached manifest, not with an error.
pub proof fn lemma_failed_rebuild_keeps_entry(s: CyrkensiaState, now: u64, e: ServeError)
    requires
        s.config.max_age is Some,
    ensures
        s.after_get(now, Some(Err(e))) == s,
        s.reply_of(now, Some(Err(e))) == Ok::<HostinfoView, ServeError>(s.hostinfo@),
{
}

} // verus!
