use vstd::prelude::*;
use crate::cache::PostCache;
use crate::privacy::ConfirmedUsers;
use crate::types::{Config, PostProvider};

verus! {

/// What every command invocation shares: the configuration, the three post
/// caches and the users who agreed to public answers.
pub struct Data {
    pub config: Config,
    pub rei_cache: PostCache,
    pub teto_cache: PostCache,
    pub spicyteto_cache: PostCache,
    pub confirmed_users: ConfirmedUsers,
}

/// How many posts each command cache asks for.
pub const CACHE_LIMIT: usize = 10;

/// A cache that holds no post, for `query` on `provider`, asking for `limit` posts.
pub open spec fn is_empty_cache(c: PostCache, query: Seq<char>, limit: usize, provider: PostProvider) -> bool {
    &&& c.posts@.len() == 0
    &&& c.query@ == query
    &&& c.limit == limit
    &&& c.provider == provider
}

impl Data {
    /// The shared data at start: the given configuration, three empty caches
    /// (Adachi Rei and Kasane Teto on Safebooru, explicit Kasane Teto on
    /// Rule34, ten posts each) and nobody who agreed yet.
    pub fn new(config: Config) -> (d: Data)
        ensures
            d.config == config,
            is_empty_cache(d.rei_cache, "rei"@, CACHE_LIMIT, PostProvider::Safebooru),
            is_empty_cache(d.teto_cache, "teto"@, CACHE_LIMIT, PostProvider::Safebooru),
            is_empty_cache(d.spicyteto_cache, "teto rating:explicit"@, CACHE_LIMIT, PostProvider::Rule34),
            d.confirmed_users@ == Set::<u64>::empty(),
    {
        Data {
            config,
            rei_cache: PostCache::empty(String::from_str("rei"), CACHE_LIMIT, PostProvider::Safebooru),
            teto_cache: PostCache::empty(String::from_str("teto"), CACHE_LIMIT, PostProvider::Safebooru),
            spicyteto_cache: PostCache::empty(
                String::from_str("teto rating:explicit"),
                CACHE_LIMIT,
                PostProvider::Rule34,
            ),
            confirmed_users: ConfirmedUsers::new(),
        }
    }
}

/// One of the three command caches.
#[derive(Debug, Clone, Copy, PartialEq, Eq, Structural)]
pub enum CacheSlot {
    Rei,
    Teto,
    SpicyTeto,
}

/// A refill of one cache that the background task makes.
#[derive(Debug)]
pub struct RefreshJob {
    pub slot: CacheSlot,
    pub provider: PostProvider,
    pub query: String,
    pub limit: usize,
}

/// Seconds between two refills of the caches.
pub const REFRESH_SECONDS: u64 = 600;
/// How many posts a refill asks for.
pub const REFRESH_LIMIT: usize = 100;
/// The query that refills the Adachi Rei cache.
pub const REI_QUERY: &'static str = "adachi_rei sort:random -ai* rating:general";
/// The query that refills the Kasane Teto cache.
pub const TETO_QUERY: &'static str = "kasane_teto sort:random -ai* rating:general";
/// The query that refills the explicit Kasane Teto cache.
pub const SPICYTETO_QUERY: &'static str = "kasane_teto sort:random score:>=10 -ai* -scat -fart -video";

/// The job `job` refills `slot` from `provider` with `query`, asking for
/// the refill limit.
pub open spec fn is_job(job: RefreshJob, slot: CacheSlot, provider: PostProvider, query: Seq<char>) -> bool {
    &&& job.slot == slot
    &&& job.provider == provider
    &&& job.query@ == query
    &&& job.limit == REFRESH_LIMIT
}

/// The refills of one round of the background task, in order: Adachi Rei and
/// Kasane Teto from Safebooru, then explicit Kasane Teto from Rule34.
pub fn refresh_jobs() -> (jobs: Vec<RefreshJob>)
    ensures
        jobs@.len() == 3,
        is_job(jobs@[0], CacheSlot::Rei, PostProvider::Safebooru, REI_QUERY@),
        is_job(jobs@[1], CacheSlot::Teto, PostProvider::Safebooru, TETO_QUERY@),
        is_job(jobs@[2], CacheSlot::SpicyTeto, PostProvider::Rule34, SPICYTETO_QUERY@),
{
    let mut jobs = Vec::new();
    jobs.push(RefreshJob {
        slot: CacheSlot::Rei,
        provider: PostProvider::Safebooru,
        query: String::from_str(REI_QUERY),
        limit: REFRESH_LIMIT,
    });
    jobs.push(RefreshJob {
        slot: CacheSlot::Teto,
        provider: PostProvider::Safebooru,
        query: String::from_str(TETO_QUERY),
        limit: REFRESH_LIMIT,
    });
    jobs.push(RefreshJob {
        slot: CacheSlot::SpicyTeto,
        provider: PostProvider::Rule34,
        query: String::from_str(SPICYTETO_QUERY),
        limit: REFRESH_LIMIT,
    });
    jobs
}

/// The commands of the image group.
#[derive(Debug, Clone, Copy, PartialEq, Eq, Structural)]
pub enum SillyCommand {
    Teto,
    Rei,
    SpicyTeto,
    Fastfetch,
}

/// Which commands of the image group are registered and which are not.
#[derive(Debug)]
pub struct CommandPlan {
    pub registered: Vec<SillyCommand>,
    pub failed: Vec<SillyCommand>,
}

/// Whether the explicit command can work: both Rule34 credentials are set.
pub open spec fn rule34_ready(key: Seq<char>, user_id: Seq<char>) -> bool {
    key.len() != 0 && user_id.len() != 0
}

/// The registered commands: teto and rei always, spicyteto with the Rule34
/// credentials, fastfetch when the program is installed.
pub open spec fn spec_registered(key: Seq<char>, user_id: Seq<char>, fastfetch_found: bool) -> Seq<SillyCommand> {
    seq![SillyCommand::Teto, SillyCommand::Rei]
        + (if rule34_ready(key, user_id) { seq![SillyCommand::SpicyTeto] } else { Seq::empty() })
        + (if fastfetch_found { seq![SillyCommand::Fastfetch] } else { Seq::empty() })
}

/// The commands left out, in order.
pub open spec fn spec_failed(key: Seq<char>, user_id: Seq<char>, fastfetch_found: bool) -> Seq<SillyCommand> {
    (if rule34_ready(key, user_id) { Seq::empty() } else { seq![SillyCommand::SpicyTeto] })
        + (if fastfetch_found { Seq::empty() } else { seq![SillyCommand::Fastfetch] })
}

/// Which image commands are registered, given the Rule34 key and user id
/// (empty when unset) and whether `fastfetch` was found.
pub fn plan_silly_commands(rule34_key: &str, rule34_user_id: &str, fastfetch_found: bool) -> (plan:
    CommandPlan)
    ensures
        plan.registered@ == spec_registered(rule34_key@, rule34_user_id@, fastfetch_found),
        plan.failed@ == spec_failed(rule34_key@, rule34_user_id@, fastfetch_found),
{
    let mut registered = Vec::new();
    let mut failed = Vec::new();
    registered.push(SillyCommand::Teto);
    registered.push(SillyCommand::Rei);
    if !rule34_key.is_empty() && !rule34_user_id.is_empty() {
        registered.push(SillyCommand::SpicyTeto);
    } else {
        failed.push(SillyCommand::SpicyTeto);
    }
    if fastfetch_found {
        registered.push(SillyCommand::Fastfetch);
    } else {
        failed.push(SillyCommand::Fastfetch);
    }
    let plan = CommandPlan { registered, failed };
    assert(plan.registered@ =~= spec_registered(rule34_key@, rule34_user_id@, fastfetch_found));
    assert(plan.failed@ =~= spec_failed(rule34_key@, rule34_user_id@, fastfetch_found));
    plan
}

/// Every image command is either registered or left out, never both and
/// never twice; teto and rei are always registered.
pub proof fn law_commands_partitioned(key: Seq<char>, user_id: Seq<char>, fastfetch_found: bool, c: SillyCommand)
    ensures
        spec_registered(key, user_id, fastfetch_found).contains(c) != spec_failed(key, user_id, fastfetch_found).contains(c),
        spec_registered(key, user_id, fastfetch_found).len() + spec_failed(key, user_id, fastfetch_found).len() == 4,
        spec_registered(key, user_id, fastfetch_found).no_duplicates(),
        spec_failed(key, user_id, fastfetch_found).no_duplicates(),
        spec_registered(key, user_id, fastfetch_found).contains(SillyCommand::Teto),
        spec_registered(key, user_id, fastfetch_found).contains(SillyCommand::Rei),
{
    let r = spec_registered(key, user_id, fastfetch_found);
    let f = spec_failed(key, user_id, fastfetch_found);
    assert(r[0] == SillyCommand::Teto);
    assert(r[1] == SillyCommand::Rei);
    if rule34_ready(key, user_id) {
        if fastfetch_found {
            assert(r =~= seq![SillyCommand::Teto, SillyCommand::Rei, SillyCommand::SpicyTeto, SillyCommand::Fastfetch]);
            assert(f =~= Seq::<SillyCommand>::empty());
        } else {
            assert(r =~= seq![SillyCommand::Teto, SillyCommand::Rei, SillyCommand::SpicyTeto]);
            assert(f =~= seq![SillyCommand::Fastfetch]);
        }
    } else {
        if fastfetch_found {
            assert(r =~= seq![SillyCommand::Teto, SillyCommand::Rei, SillyCommand::Fastfetch]);
            assert(f =~= seq![SillyCommand::SpicyTeto]);
        } else {
            assert(r =~= seq![SillyCommand::Teto, SillyCommand::Rei]);
            assert(f =~= seq![SillyCommand::SpicyTeto, SillyCommand::Fastfetch]);
        }
    }
    // membership in these short lists, element by element
    assert(r.contains(c) == exists|i: int| 0 <= i < r.len() && r[i] == c);
    assert(f.contains(c) == exists|i: int| 0 <= i < f.len() && f[i] == c);
}

/// Each optional command depends on its own condition alone: spicyteto is
/// registered exactly when both Rule34 credentials are set, whether or not
/// fastfetch is installed, and fastfetch exactly when it was found, whatever
/// the credentials.
pub proof fn law_each_command_on_its_own_condition(key: Seq<char>, user_id: Seq<char>, fastfetch_found: bool)
    ensures
        spec_registered(key, user_id, fastfetch_found).contains(SillyCommand::SpicyTeto)
            == (key.len() != 0 && user_id.len() != 0),
        spec_failed(key, user_id, fastfetch_found).contains(SillyCommand::SpicyTeto)
            == !(key.len() != 0 && user_id.len() != 0),
        spec_registered(key, user_id, fastfetch_found).contains(SillyCommand::Fastfetch) == fastfetch_found,
        spec_failed(key, user_id, fastfetch_found).contains(SillyCommand::Fastfetch) == !fastfetch_found,
{
    law_commands_partitioned(key, user_id, fastfetch_found, SillyCommand::SpicyTeto);
    law_commands_partitioned(key, user_id, fastfetch_found, SillyCommand::Fastfetch);
    let r = spec_registered(key, user_id, fastfetch_found);
    let f = spec_failed(key, user_id, fastfetch_found);
    if key.len() != 0 && user_id.len() != 0 {
        assert(r[2] == SillyCommand::SpicyTeto);
        if fastfetch_found {
            assert(r[3] == SillyCommand::Fastfetch);
        } else {
            assert(f[0] == SillyCommand::Fastfetch);
        }
    } else {
        assert(f[0] == SillyCommand::SpicyTeto);
        if fastfetch_found {
            assert(r[2] == SillyCommand::Fastfetch);
        } else {
            assert(f[1] == SillyCommand::Fastfetch);
        }
    }
}

} // verus!
