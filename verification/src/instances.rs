//! The mounted map instances and the commands waiting for each of them: a command is
//! accepted only for a mounted instance, and an instance receives its commands in
//! the order they were sent.
use crate::keyed_map::KeyedMap;
use vstd::prelude::*;

verus! {

/// Why a command was refused.
#[derive(Debug, Clone, PartialEq, Eq)]
pub enum InstanceError {
    /// The instance with this id is not mounted.
    NotMounted(String),
}

/// The mounted instances and their queued commands.
pub struct InstanceRegistry<C> {
    mounted: KeyedMap<String, ()>,
    queues: KeyedMap<String, Vec<C>>,
}

impl<C> InstanceRegistry<C> {
    /// The ids of the mounted instances.
    pub closed spec fn mounted(&self) -> Set<Seq<char>> {
        self.mounted@.dom()
    }

    /// The commands waiting for each instance that ever had one, oldest first.
    pub closed spec fn queues(&self) -> Map<Seq<char>, Seq<C>> {
        self.queues@.map_values(|q: Vec<C>| q@)
    }

    /// The commands waiting for instance `id`, oldest first.
    pub open spec fn queue(&self, id: Seq<char>) -> Seq<C> {
        if self.queues().contains_key(id) {
            self.queues()[id]
        } else {
            Seq::empty()
        }
    }

    /// A registry without instances.
    pub fn new() -> (r: Self)
        ensures
            r.mounted() == Set::<Seq<char>>::empty(),
            r.queues() == Map::<Seq<char>, Seq<C>>::empty(),
    {
        let r = InstanceRegistry { mounted: KeyedMap::new(), queues: KeyedMap::new() };
        assert(r.mounted() =~= Set::<Seq<char>>::empty());
        assert(r.queues() =~= Map::<Seq<char>, Seq<C>>::empty());
        r
    }

    /// Whether instance `id` is mounted.
    pub fn is_instance_mounted(&self, id: &str) -> (r: bool)
        ensures
            r == self.mounted().contains(id@),
    {
        self.mounted.get(&id.to_string()).is_some()
    }

    /// Marks instance `id` as mounted.
    pub fn register_instance(&mut self, id: String)
        ensures
            final(self).mounted() == old(self).mounted().insert(id@),
            final(self).queues() == old(self).queues(),
    {
        self.mounted.insert(id, ());
        assert(self.mounted() =~= old(self).mounted().insert(id@));
    }

    /// Marks instance `id` as no longer mounted; its waiting commands stay.
    pub fn unregister_instance(&mut self, id: &str)
        ensures
            final(self).mounted() == old(self).mounted().remove(id@),
            final(self).queues() == old(self).queues(),
    {
        let _ = self.mounted.remove(&id.to_string());
        assert(self.mounted() =~= old(self).mounted().remove(id@));
    }

    /// Queues `command` for instance `id`, which must be mounted.
    pub fn enqueue_instance_command(&mut self, id: &str, command: C) -> (r: Result<(), InstanceError>)
        ensures
            final(self).mounted() == old(self).mounted(),
            old(self).mounted().contains(id@) ==> r is Ok && final(self).queues() == old(self).queues().insert(
                id@,
                old(self).queue(id@).push(command),
            ),
            !old(self).mounted().contains(id@) ==> (r matches Err(InstanceError::NotMounted(
                name,
            )) && name@ == id@) && final(self).queues() == old(self).queues(),
    {
        if !self.is_instance_mounted(id) {
            return Err(InstanceError::NotMounted(id.to_string()));
        }
        let key = id.to_string();
        let ghost before = self.queues();
        let mut queue = match self.queues.remove(&key) {
            Some(q) => q,
            None => Vec::new(),
        };
        assert(queue@ == old(self).queue(id@));
        queue.push(command);
        self.queues.insert(key, queue);
        assert(self.queues() =~= before.insert(id@, old(self).queue(id@).push(command)));
        Ok(())
    }

    /// Takes the commands waiting for instance `id`, oldest first, leaving its queue
    /// empty.
    pub fn drain_commands(&mut self, id: &str) -> (commands: Vec<C>)
        ensures
            commands@ == old(self).queue(id@),
            final(self).mounted() == old(self).mounted(),
            final(self).queue(id@) == Seq::<C>::empty(),
            forall|other: Seq<char>| other != id@ ==> #[trigger] final(self).queue(other) == old(self).queue(other),
    {
        let key = id.to_string();
        let ghost before = self.queues();
        match self.queues.remove(&key) {
            Some(q) => {
                self.queues.insert(key, Vec::new());
                assert(self.queues() =~= before.insert(id@, Seq::<C>::empty()));
                q
            },
            None => {
                assert(self.queues() =~= before);
                Vec::new()
            },
        }
    }
}

/// Hands out map-integration ids from a counter: the counter's value, and the value
/// it moves on to (one more, staying at the maximum once reached, never zero).
pub fn allocate_integration_id(next: u32) -> (r: (u32, u32))
    ensures
        r.0 == next,
        r.1 == if next == u32::MAX {
            u32::MAX
        } else {
            (next + 1) as u32
        },
{
    let following = next.saturating_add(1);
    let following = if following < 1 {
        1
    } else {
        following
    };
    (next, following)
}

} // verus!
