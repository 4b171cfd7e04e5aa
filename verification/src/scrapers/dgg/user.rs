//! The users of a chat of the Destiny.gg kind and their flairs.

use crate::text::same_text;
use vstd::prelude::*;

verus! {

/// A user as the chat sends it: the nick and the names of its features.
#[derive(Clone, Debug, PartialEq, Eq)]
pub struct RawUser {
    pub nick: String,
    pub features: Vec<String>,
}

/// A user with its features read.
#[derive(Clone, Debug, PartialEq, Eq)]
pub struct User {
    /// The username of the message sender
    pub username: String,
    /// Present if the user is subscribed, and denotes the tier.
    pub subscription: Option<Subscriptions>,
    /// Whether or not the user is subscribed
    pub is_subscriber: bool,
    /// Whether or not the sending user is registered as a bot
    pub is_bot: bool,
    /// Whether or not the sending user is "protected"
    pub is_protected: bool,
    /// Whether or not the sending user is a VIP
    pub is_vip: bool,
    /// Whether or not the sending user is a recognized broadcaster
    pub is_broadcaster: bool,
    /// Whether or not the sending user is an admin
    pub is_admin: bool,
    /// Whether or not the sending user is a moderator
    pub is_moderator: bool,
    /// Every feature of the user, known or not
    pub flairs: Vec<Flairs>,
}

/// A feature of a user.
#[derive(Clone, Debug, PartialEq, Eq)]
pub enum Flairs {
    Moderator,
    Protected,
    Subscriber,
    Admin,
    Broadcaster,
    Vip,
    Bot,
    Bot2,
    SubTier1,
    SubTier2,
    SubTier3,
    SubTier4,
    SubTwitch,
    Contributor,
    EmoteContributor,
    Notable,
    Trusted,
    Micro,
    NFLAndy,
    Verified,
    YoutubeContributor,
    DndKnightParty,
    DndKnightScoria,
    DndBaronBlue,
    DndBaronGold,
    YoutubeEditor,
    EmoteMaster,
    DggShirtDesigner,
    DggBirthday,
    MinecraftVIP,
    Starcraft2,
    CompositionWinner,
    Unknown(String),
}

/// The tier of a subscription.
#[derive(Clone, Copy, Debug, PartialEq, Eq, Structural)]
pub enum Subscriptions {
    Twitch,
    Tier1,
    Tier2,
    Tier3,
    Tier4,
}

/// The name under which the chat sends a feature.
pub open spec fn flair_name(f: Flairs) -> Seq<char> {
    match f {
        Flairs::Moderator => "moderator"@,
        Flairs::Protected => "protected"@,
        Flairs::Subscriber => "subscriber"@,
        Flairs::Admin => "admin"@,
        Flairs::Broadcaster => "flair12"@,
        Flairs::Vip => "vip"@,
        Flairs::Bot => "bot"@,
        Flairs::Bot2 => "flair11"@,
        Flairs::SubTier1 => "flair13"@,
        Flairs::SubTier2 => "flair1"@,
        Flairs::SubTier3 => "flair3"@,
        Flairs::SubTier4 => "flair8"@,
        Flairs::SubTwitch => "flair9"@,
        Flairs::Contributor => "flair5"@,
        Flairs::EmoteContributor => "flair16"@,
        Flairs::Notable => "flair2"@,
        Flairs::Trusted => "flair4"@,
        Flairs::Micro => "flair17"@,
        Flairs::NFLAndy => "flair7"@,
        Flairs::Verified => "flair20"@,
        Flairs::YoutubeContributor => "flair25"@,
        Flairs::DndKnightParty => "flair26"@,
        Flairs::DndKnightScoria => "flair24"@,
        Flairs::DndBaronBlue => "flair23"@,
        Flairs::DndBaronGold => "flair22"@,
        Flairs::YoutubeEditor => "flair21"@,
        Flairs::EmoteMaster => "flair18"@,
        Flairs::DggShirtDesigner => "flair19"@,
        Flairs::DggBirthday => "flair15"@,
        Flairs::MinecraftVIP => "flair14"@,
        Flairs::Starcraft2 => "flair10"@,
        Flairs::CompositionWinner => "flair6"@,
        Flairs::Unknown(s) => s@,
    }
}

/// Whether a name is that of a feature that has a variant of its own.
pub open spec fn is_known_flair(s: Seq<char>) -> bool {
    ||| s == "moderator"@
    ||| s == "protected"@
    ||| s == "subscriber"@
    ||| s == "admin"@
    ||| s == "flair12"@
    ||| s == "vip"@
    ||| s == "bot"@
    ||| s == "flair11"@
    ||| s == "flair13"@
    ||| s == "flair1"@
    ||| s == "flair3"@
    ||| s == "flair8"@
    ||| s == "flair9"@
    ||| s == "flair5"@
    ||| s == "flair16"@
    ||| s == "flair2"@
    ||| s == "flair4"@
    ||| s == "flair17"@
    ||| s == "flair7"@
    ||| s == "flair20"@
    ||| s == "flair25"@
    ||| s == "flair26"@
    ||| s == "flair24"@
    ||| s == "flair23"@
    ||| s == "flair22"@
    ||| s == "flair21"@
    ||| s == "flair18"@
    ||| s == "flair19"@
    ||| s == "flair15"@
    ||| s == "flair14"@
    ||| s == "flair10"@
    ||| s == "flair6"@
}

/// The tier that a feature stands for, if it stands for one.
pub open spec fn tier_of(f: Flairs) -> Option<Subscriptions> {
    match f {
        Flairs::SubTier1 => Some(Subscriptions::Tier1),
        Flairs::SubTier2 => Some(Subscriptions::Tier2),
        Flairs::SubTier3 => Some(Subscriptions::Tier3),
        Flairs::SubTier4 => Some(Subscriptions::Tier4),
        Flairs::SubTwitch => Some(Subscriptions::Twitch),
        _ => None,
    }
}

/// The tier of the first feature, from `i` on, that stands for one.
pub open spec fn first_tier(flairs: Seq<Flairs>, i: int) -> Option<Subscriptions>
    decreases flairs.len() - i,
{
    if i < 0 || i >= flairs.len() {
        None
    } else if tier_of(flairs[i]) is Some {
        tier_of(flairs[i])
    } else {
        first_tier(flairs, i + 1)
    }
}

/// Whether some feature among `flairs` meets `wanted`.
pub open spec fn has_flair(flairs: Seq<Flairs>, wanted: spec_fn(Flairs) -> bool) -> bool {
    exists|i: int| 0 <= i < flairs.len() && wanted(#[trigger] flairs[i])
}

/// The features that a user was sent with, read one by one.
pub open spec fn flairs_of(features: Seq<String>, flairs: Seq<Flairs>) -> bool {
    &&& flairs.len() == features.len()
    &&& forall|i: int|
        0 <= i < features.len() ==> flair_name(#[trigger] flairs[i]) == features[i]@ && (
        flairs[i] is Unknown <==> !is_known_flair(features[i]@))
}

/// What `user` must be for it to be the reading of `raw`.
pub open spec fn user_of(raw: RawUser, user: User) -> bool {
    let flairs = user.flairs@;
    &&& user.username@ == raw.nick@
    &&& flairs_of(raw.features@, flairs)
    &&& user.subscription == first_tier(flairs, 0)
    &&& user.is_subscriber == (first_tier(flairs, 0) is Some)
    &&& user.is_bot == has_flair(flairs, |f: Flairs| f is Bot || f is Bot2)
    &&& user.is_vip == has_flair(flairs, |f: Flairs| f is Vip)
    &&& user.is_protected == has_flair(flairs, |f: Flairs| f is Protected)
    &&& user.is_moderator == has_flair(flairs, |f: Flairs| f is Moderator)
    &&& user.is_admin == has_flair(flairs, |f: Flairs| f is Admin)
    &&& user.is_broadcaster == has_flair(flairs, |f: Flairs| f is Broadcaster)
}

impl Flairs {
    /// The feature that the chat sends under the name `s`; a name that
    /// stands for none is kept as it is.
    pub fn from_str(s: &str) -> (r: Flairs)
        ensures
            flair_name(r) == s@,
            r is Unknown <==> !is_known_flair(s@),
    {
        if same_text(s, "moderator") {
            Flairs::Moderator
        } else if same_text(s, "protected") {
            Flairs::Protected
        } else if same_text(s, "subscriber") {
            Flairs::Subscriber
        } else if same_text(s, "admin") {
            Flairs::Admin
        } else if same_text(s, "flair12") {
            Flairs::Broadcaster
        } else if same_text(s, "vip") {
            Flairs::Vip
        } else if same_text(s, "bot") {
            Flairs::Bot
        } else if same_text(s, "flair11") {
            Flairs::Bot2
        } else if same_text(s, "flair13") {
            Flairs::SubTier1
        } else if same_text(s, "flair1") {
            Flairs::SubTier2
        } else if same_text(s, "flair3") {
            Flairs::SubTier3
        } else if same_text(s, "flair8") {
            Flairs::SubTier4
        } else if same_text(s, "flair9") {
            Flairs::SubTwitch
        } else if same_text(s, "flair5") {
            Flairs::Contributor
        } else if same_text(s, "flair16") {
            Flairs::EmoteContributor
        } else if same_text(s, "flair2") {
            Flairs::Notable
        } else if same_text(s, "flair4") {
            Flairs::Trusted
        } else if same_text(s, "flair17") {
            Flairs::Micro
        } else if same_text(s, "flair7") {
            Flairs::NFLAndy
        } else if same_text(s, "flair20") {
            Flairs::Verified
        } else if same_text(s, "flair25") {
            Flairs::YoutubeContributor
        } else if same_text(s, "flair26") {
            Flairs::DndKnightParty
        } else if same_text(s, "flair24") {
            Flairs::DndKnightScoria
        } else if same_text(s, "flair23") {
            Flairs::DndBaronBlue
        } else if same_text(s, "flair22") {
            Flairs::DndBaronGold
        } else if same_text(s, "flair21") {
            Flairs::YoutubeEditor
        } else if same_text(s, "flair18") {
            Flairs::EmoteMaster
        } else if same_text(s, "flair19") {
            Flairs::DggShirtDesigner
        } else if same_text(s, "flair15") {
            Flairs::DggBirthday
        } else if same_text(s, "flair14") {
            Flairs::MinecraftVIP
        } else if same_text(s, "flair10") {
            Flairs::Starcraft2
        } else if same_text(s, "flair6") {
            Flairs::CompositionWinner
        } else {
            Flairs::Unknown(s.to_owned())
        }
    }

    /// The name under which the chat sends the feature.
    pub fn to_string(&self) -> (r: String)
        ensures
            r@ == flair_name(*self),
    {
        match self {
            Flairs::Moderator => "moderator".to_owned(),
            Flairs::Protected => "protected".to_owned(),
            Flairs::Subscriber => "subscriber".to_owned(),
            Flairs::Admin => "admin".to_owned(),
            Flairs::Broadcaster => "flair12".to_owned(),
            Flairs::Vip => "vip".to_owned(),
            Flairs::Bot => "bot".to_owned(),
            Flairs::Bot2 => "flair11".to_owned(),
            Flairs::SubTier1 => "flair13".to_owned(),
            Flairs::SubTier2 => "flair1".to_owned(),
            Flairs::SubTier3 => "flair3".to_owned(),
            Flairs::SubTier4 => "flair8".to_owned(),
            Flairs::SubTwitch => "flair9".to_owned(),
            Flairs::Contributor => "flair5".to_owned(),
            Flairs::EmoteContributor => "flair16".to_owned(),
            Flairs::Notable => "flair2".to_owned(),
            Flairs::Trusted => "flair4".to_owned(),
            Flairs::Micro => "flair17".to_owned(),
            Flairs::NFLAndy => "flair7".to_owned(),
            Flairs::Verified => "flair20".to_owned(),
            Flairs::YoutubeContributor => "flair25".to_owned(),
            Flairs::DndKnightParty => "flair26".to_owned(),
            Flairs::DndKnightScoria => "flair24".to_owned(),
            Flairs::DndBaronBlue => "flair23".to_owned(),
            Flairs::DndBaronGold => "flair22".to_owned(),
            Flairs::YoutubeEditor => "flair21".to_owned(),
            Flairs::EmoteMaster => "flair18".to_owned(),
            Flairs::DggShirtDesigner => "flair19".to_owned(),
            Flairs::DggBirthday => "flair15".to_owned(),
            Flairs::MinecraftVIP => "flair14".to_owned(),
            Flairs::Starcraft2 => "flair10".to_owned(),
            Flairs::CompositionWinner => "flair6".to_owned(),
            Flairs::Unknown(s) => s.clone(),
        }
    }

    /// The tier that the feature stands for, if it stands for one.
    pub fn tier(&self) -> (r: Option<Subscriptions>)
        ensures
            r == tier_of(*self),
    {
        match self {
            Flairs::SubTier1 => Some(Subscriptions::Tier1),
            Flairs::SubTier2 => Some(Subscriptions::Tier2),
            Flairs::SubTier3 => Some(Subscriptions::Tier3),
            Flairs::SubTier4 => Some(Subscriptions::Tier4),
            Flairs::SubTwitch => Some(Subscriptions::Twitch),
            _ => None,
        }
    }
}

impl User {
    /// Reads the features of a user: which tier it is subscribed at, and
    /// which of the roles it has.
    pub fn from_raw(raw: RawUser) -> (user: User)
        ensures
            user_of(raw, user),
    {
        let mut flairs: Vec<Flairs> = Vec::new();
        let mut subscription: Option<Subscriptions> = None;
        let mut is_bot = false;
        let mut is_vip = false;
        let mut is_protected = false;
        let mut is_broadcaster = false;
        let mut is_moderator = false;
        let mut is_admin = false;
        let mut i: usize = 0;
        while i < raw.features.len()
            invariant
                i <= raw.features.len(),
                flairs.len() == i,
                forall|k: int|
                    0 <= k < i ==> flair_name(#[trigger] flairs@[k]) == raw.features@[k]@ && (
                    flairs@[k] is Unknown <==> !is_known_flair(raw.features@[k]@)),
                subscription is None ==> forall|k: int|
                    0 <= k < i ==> tier_of(#[trigger] flairs@[k]) is None,
                subscription is Some ==> exists|k: int|
                    0 <= k < i && tier_of(#[trigger] flairs@[k]) == subscription && forall|j: int|
                        0 <= j < k ==> tier_of(#[trigger] flairs@[j]) is None,
                is_bot == has_flair(flairs@, |f: Flairs| f is Bot || f is Bot2),
                is_vip == has_flair(flairs@, |f: Flairs| f is Vip),
                is_protected == has_flair(flairs@, |f: Flairs| f is Protected),
                is_broadcaster == has_flair(flairs@, |f: Flairs| f is Broadcaster),
                is_moderator == has_flair(flairs@, |f: Flairs| f is Moderator),
                is_admin == has_flair(flairs@, |f: Flairs| f is Admin),
            decreases raw.features.len() - i,
        {
            let flair = Flairs::from_str(raw.features[i].as_str());
            let ghost before = flairs@;
            if subscription.is_none() {
                subscription = flair.tier();
            }
            match &flair {
                Flairs::Bot => {
                    is_bot = true;
                },
                Flairs::Bot2 => {
                    is_bot = true;
                },
                Flairs::Vip => {
                    is_vip = true;
                },
                Flairs::Protected => {
                    is_protected = true;
                },
                Flairs::Broadcaster => {
                    is_broadcaster = true;
                },
                Flairs::Moderator => {
                    is_moderator = true;
                },
                Flairs::Admin => {
                    is_admin = true;
                },
                _ => {},
            }
            flairs.push(flair);
            proof {
                lemma_has_flair_push(before, flair, |f: Flairs| f is Bot || f is Bot2);
                lemma_has_flair_push(before, flair, |f: Flairs| f is Vip);
                lemma_has_flair_push(before, flair, |f: Flairs| f is Protected);
                lemma_has_flair_push(before, flair, |f: Flairs| f is Broadcaster);
                lemma_has_flair_push(before, flair, |f: Flairs| f is Moderator);
                lemma_has_flair_push(before, flair, |f: Flairs| f is Admin);
                assert(forall|k: int| 0 <= k < i ==> flairs@[k] == before[k]);
                if subscription is Some {
                    if tier_of(flair) == subscription && (forall|k: int|
                        0 <= k < i ==> tier_of(#[trigger] before[k]) is None) {
                        assert(tier_of(flairs@[i as int]) == subscription);
                    } else {
                        let k = choose|k: int|
                            0 <= k < i && tier_of(#[trigger] before[k]) == subscription && forall|
                                j: int,
                            |
                                0 <= j < k ==> tier_of(#[trigger] before[j]) is None;
                        assert(tier_of(flairs@[k]) == subscription);
                    }
                }
            }
            i += 1;
        }
        proof {
            lemma_first_tier(flairs@, 0, subscription);
        }
        User {
            username: raw.nick,
            is_subscriber: subscription.is_some(),
            is_bot,
            is_vip,
            is_protected,
            is_moderator,
            is_admin,
            is_broadcaster,
            flairs,
            subscription,
        }
    }
}

impl From<RawUser> for User {
    /// The same as [`User::from_raw`].
    fn from(raw: RawUser) -> (user: User)
        ensures
            user_of(raw, user),
    {
        User::from_raw(raw)
    }
}

/// The reading of a user is stated by the relation `user_of`, on `from`
/// itself: a list of features cannot be written down as a value here.
impl vstd::std_specs::convert::FromSpecImpl<RawUser> for User {
    open spec fn obeys_from_spec() -> bool {
        false
    }

    open spec fn from_spec(raw: RawUser) -> User {
        arbitrary()
    }
}

/// Adding a feature adds it to what the features have, and nothing else.
proof fn lemma_has_flair_push(flairs: Seq<Flairs>, flair: Flairs, wanted: spec_fn(Flairs) -> bool)
    ensures
        has_flair(flairs.push(flair), wanted) == (has_flair(flairs, wanted) || wanted(flair)),
{
    let after = flairs.push(flair);
    if has_flair(flairs, wanted) {
        let i = choose|i: int| 0 <= i < flairs.len() && wanted(#[trigger] flairs[i]);
        assert(wanted(after[i]));
    }
    if wanted(flair) {
        assert(wanted(after[flairs.len() as int]));
    }
    if has_flair(after, wanted) {
        let i = choose|i: int| 0 <= i < after.len() && wanted(#[trigger] after[i]);
        if i < flairs.len() {
            assert(wanted(flairs[i]));
        }
    }
}

/// `first_tier` is the tier at the first index that has one.
proof fn lemma_first_tier(flairs: Seq<Flairs>, from: int, found: Option<Subscriptions>)
    requires
        0 <= from <= flairs.len(),
        found is None ==> forall|k: int|
            from <= k < flairs.len() ==> tier_of(#[trigger] flairs[k]) is None,
        found is Some ==> exists|k: int|
            from <= k < flairs.len() && tier_of(#[trigger] flairs[k]) == found && forall|j: int|
                from <= j < k ==> tier_of(#[trigger] flairs[j]) is None,
    ensures
        first_tier(flairs, from) == found,
    decreases flairs.len() - from,
{
    if from < flairs.len() {
        if tier_of(flairs[from]) is Some {
            if found is Some {
                let k = choose|k: int|
                    from <= k < flairs.len() && tier_of(#[trigger] flairs[k]) == found && forall|
                        j: int,
                    |
                        from <= j < k ==> tier_of(#[trigger] flairs[j]) is None;
                if k > from {
                    assert(tier_of(flairs[from]) is None);
                }
            }
        } else {
            if found is Some {
                let k = choose|k: int|
                    from <= k < flairs.len() && tier_of(#[trigger] flairs[k]) == found && forall|
                        j: int,
                    |
                        from <= j < k ==> tier_of(#[trigger] flairs[j]) is None;
                assert(k > from);
                assert(from + 1 <= k < flairs.len() && tier_of(flairs[k]) == found);
            }
            lemma_first_tier(flairs, from + 1, found);
        }
    }
}

} // verus!
