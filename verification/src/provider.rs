//! Cloud provider sections, and the options they turn into for the object
//! store.

use vstd::prelude::*;
use vstd::string::*;

#[allow(unused_imports)]
use crate::expand::{expansion, expands, plain, plain_texts_stay};
use crate::expand::{expand_string_vec, LookupFailure};
use crate::text::same_text;

verus! {

/// The keys and values of a provider section, each key once.
#[derive(Debug)]
pub struct Section {
    entries: Vec<(String, String)>,
}

impl Clone for Section {
    fn clone(&self) -> (copy: Section)
        ensures
            copy.pairs() == self.pairs(),
    {
        proof {
            use_type_invariant(self);
        }
        Section { entries: self.to_vec() }
    }
}

/// `pairs` with `value` under `key`: in place of the value that is there, or
/// behind the rest.
pub open spec fn with_pair(pairs: Seq<(String, String)>, key: String, value: String) -> Seq<
    (String, String),
>
    decreases pairs.len(),
{
    if pairs.len() == 0 {
        seq![(key, value)]
    } else if pairs[0].0@ == key@ {
        seq![(pairs[0].0, value)] + pairs.skip(1)
    } else {
        seq![pairs[0]] + with_pair(pairs.skip(1), key, value)
    }
}

/// The value under a key.
pub open spec fn value_under(pairs: Seq<(String, String)>, key: Seq<char>) -> Option<Seq<char>>
    decreases pairs.len(),
{
    if pairs.len() == 0 {
        None
    } else if pairs[0].0@ == key {
        Some(pairs[0].1@)
    } else {
        value_under(pairs.skip(1), key)
    }
}

/// The value under a key is the one at its first place.
proof fn value_under_is_at_the_first_place(
    pairs: Seq<(String, String)>,
    key: Seq<char>,
    place: int,
)
    requires
        0 <= place <= pairs.len(),
        forall|j: int| 0 <= j < place ==> (#[trigger] pairs[j]).0@ != key,
        place < pairs.len() ==> pairs[place].0@ == key,
    ensures
        value_under(pairs, key) == (if place < pairs.len() {
            Some(pairs[place].1@)
        } else {
            None
        }),
    decreases pairs.len(),
{
    if pairs.len() > 0 && place > 0 {
        assert(pairs[0].0@ != key);
        assert forall|j: int| 0 <= j < place - 1 implies (#[trigger] pairs.skip(1)[j]).0@
            != key by {
            assert(pairs.skip(1)[j] == pairs[j + 1]);
        }
        value_under_is_at_the_first_place(pairs.skip(1), key, place - 1);
    }
}

/// What was put under a key is found there, and what is under the other keys
/// stays.
pub proof fn a_section_gives_back_what_was_put_in(
    pairs: Seq<(String, String)>,
    key: String,
    value: String,
    other: Seq<char>,
)
    ensures
        value_under(with_pair(pairs, key, value), key@) == Some(value@),
        other != key@ ==> value_under(with_pair(pairs, key, value), other) == value_under(
            pairs,
            other,
        ),
    decreases pairs.len(),
{
    let now = with_pair(pairs, key, value);
    if pairs.len() == 0 {
        assert(now.skip(1) =~= pairs);
    } else if pairs[0].0@ == key@ {
        assert(now.skip(1) =~= pairs.skip(1));
    } else {
        a_section_gives_back_what_was_put_in(pairs.skip(1), key, value, other);
        assert(now.skip(1) =~= with_pair(pairs.skip(1), key, value));
    }
}

/// Where a key is, its value changes and nothing else; where it is not, the
/// pair goes behind the rest.
proof fn with_pair_changes_one_place(
    pairs: Seq<(String, String)>,
    key: String,
    value: String,
    place: int,
)
    requires
        0 <= place <= pairs.len(),
        forall|j: int| 0 <= j < place ==> (#[trigger] pairs[j]).0@ != key@,
        place < pairs.len() ==> pairs[place].0@ == key@,
    ensures
        with_pair(pairs, key, value) == (if place < pairs.len() {
            pairs.update(place, (pairs[place].0, value))
        } else {
            pairs.push((key, value))
        }),
    decreases pairs.len(),
{
    if pairs.len() > 0 && place > 0 {
        assert(pairs[0].0@ != key@);
        assert forall|j: int| 0 <= j < place - 1 implies (#[trigger] pairs.skip(1)[j]).0@
            != key@ by {
            assert(pairs.skip(1)[j] == pairs[j + 1]);
        }
        with_pair_changes_one_place(pairs.skip(1), key, value, place - 1);
    }
}

impl Section {
    /// The keys and values, in the order in which the keys were added.
    pub closed spec fn pairs(self) -> Seq<(String, String)> {
        self.entries@
    }

    #[verifier::type_invariant]
    spec fn distinct(self) -> bool {
        distinct_keys(self.entries@)
    }

    /// The section with nothing in it.
    pub fn new() -> (section: Section)
        ensures
            section.pairs() == Seq::<(String, String)>::empty(),
    {
        Section { entries: Vec::new() }
    }

    /// The place of a key, or the number of keys where it is not there.
    fn place_of(&self, key: &str) -> (place: usize)
        ensures
            0 <= place <= self.pairs().len(),
            forall|j: int| 0 <= j < place ==> (#[trigger] self.pairs()[j]).0@ != key@,
            place < self.pairs().len() ==> self.pairs()[place as int].0@ == key@,
    {
        let mut i: usize = 0;
        while i < self.entries.len()
            invariant
                i <= self.entries@.len(),
                forall|j: int| 0 <= j < i ==> (#[trigger] self.entries@[j]).0@ != key@,
            decreases self.entries@.len() - i,
        {
            if same_text(self.entries[i].0.as_str(), key) {
                return i;
            }
            i += 1;
        }
        i
    }

    /// Puts a value under a key, in place of the one that is there.
    pub fn insert(&mut self, key: String, value: String)
        ensures
            final(self).pairs() == with_pair(old(self).pairs(), key, value),
    {
        proof {
            use_type_invariant(&*self);
        }
        let place: usize = self.place_of(key.as_str());
        let ghost before = self.entries@;
        let mut entries: Vec<(String, String)> = Vec::new();
        std::mem::swap(&mut entries, &mut self.entries);
        proof {
            with_pair_changes_one_place(before, key, value, place as int);
        }
        if place < entries.len() {
            let own = entries[place].0.clone();
            entries.set(place, (own, value));
        } else {
            entries.push((key, value));
        }
        self.entries = entries;
    }

    /// The value under a key.
    pub fn get(&self, key: &str) -> (value: Option<&String>)
        ensures
            match value {
                Some(value) => value_under(self.pairs(), key@) == Some(value@),
                None => value_under(self.pairs(), key@) is None,
            },
    {
        let place: usize = self.place_of(key);
        proof {
            value_under_is_at_the_first_place(self.pairs(), key@, place as int);
        }
        if place < self.entries.len() {
            Some(&self.entries[place].1)
        } else {
            None
        }
    }

    /// The keys and values, each key once.
    pub fn to_vec(&self) -> (pairs: Vec<(String, String)>)
        ensures
            pairs@ == self.pairs(),
            distinct_keys(pairs@),
    {
        proof {
            use_type_invariant(self);
        }
        let mut pairs: Vec<(String, String)> = Vec::new();
        let mut i: usize = 0;
        while i < self.entries.len()
            invariant
                i <= self.entries@.len(),
                pairs@ == self.entries@.take(i as int),
            decreases self.entries@.len() - i,
        {
            pairs.push((self.entries[i].0.clone(), self.entries[i].1.clone()));
            i += 1;
        }
        assert(pairs@ =~= self.entries@);
        pairs
    }

    /// The number of keys.
    pub fn len(&self) -> (n: usize)
        ensures
            n == self.pairs().len(),
    {
        self.entries.len()
    }
}

/// The `[aws]` section.
#[derive(Debug, Clone)]
pub struct AwsConfig(pub Section);

/// The `[azure]` section.
#[derive(Debug, Clone)]
pub struct AzureConfig(pub Section);

/// The `[gcp]` section.
#[derive(Debug, Clone)]
pub struct GcsConfig(pub Section);

/// Location of a separate WAL store.
#[derive(Debug, Clone)]
pub struct WalConfig {
    /// The store's URL.
    pub url: String,
    /// Object storage class/tier for WAL writes.
    pub storage_class: Option<String>,
    /// AWS options of the WAL store.
    pub aws: Option<AwsConfig>,
    /// Azure options of the WAL store.
    pub azure: Option<AzureConfig>,
    /// GCS options of the WAL store.
    pub gcp: Option<GcsConfig>,
}

/// A text in lower case, as Unicode has it.
pub uninterp spec fn lowercase(s: Seq<char>) -> Seq<char>;

/// [`str::to_lowercase`]. Lower case follows Unicode tables, so the result is
/// only named: the same text always has the same lower case.
#[verifier::external_body]
fn lowercase_text(s: &str) -> (lowered: String)
    ensures
        lowered@ == lowercase(s@),
{
    s.to_lowercase()
}

/// Keys and values as texts.
pub open spec fn pair_texts(pairs: Seq<(String, String)>) -> Seq<(Seq<char>, Seq<char>)> {
    pairs.map_values(|pair: (String, String)| (pair.0@, pair.1@))
}

/// No key occurs twice.
pub open spec fn distinct_keys(pairs: Seq<(String, String)>) -> bool {
    forall|i: int, j: int|
        0 <= i < j < pairs.len() ==> (#[trigger] pairs[i]).0@ != (#[trigger] pairs[j]).0@
}

/// The options of one section: each key in lower case behind the provider's
/// prefix, with its value.
pub open spec fn section_options(prefix: Seq<char>, section: Seq<(String, String)>) -> Seq<
    (Seq<char>, Seq<char>),
> {
    section.map_values(|pair: (String, String)| (prefix + lowercase(pair.0@), pair.1@))
}

/// The options of all three sections, AWS first, then Azure, then GCS.
pub open spec fn provider_options(
    aws: Option<AwsConfig>,
    azure: Option<AzureConfig>,
    gcp: Option<GcsConfig>,
) -> Seq<(Seq<char>, Seq<char>)> {
    (match aws {
        Some(section) => section_options("aws_"@, section.0.pairs()),
        None => seq![],
    }) + (match azure {
        Some(section) => section_options("azure_"@, section.0.pairs()),
        None => seq![],
    }) + (match gcp {
        Some(section) => section_options("google_"@, section.0.pairs()),
        None => seq![],
    })
}

/// One option: the provider's prefix and a key in lower case, with its value.
pub fn provider_option(prefix: &str, lowered_key: &str, value: &str) -> (option: (String, String))
    ensures
        option.0@ == prefix@ + lowered_key@,
        option.1@ == value@,
{
    let mut name = prefix.to_owned();
    name.append(lowered_key);
    (name, value.to_owned())
}

/// Adds the options of one section.
fn push_section(options: &mut Vec<(String, String)>, prefix: &str, from: &Section)
    ensures
        pair_texts(final(options)@) == pair_texts(old(options)@) + section_options(
            prefix@,
            from.pairs(),
        ),
{
    let section = &from.entries;
    let ghost before = options@;
    let mut i: usize = 0;
    while i < section.len()
        invariant
            i <= section@.len(),
            pair_texts(options@) == pair_texts(before) + section_options(
                prefix@,
                section@.take(i as int),
            ),
        decreases section@.len() - i,
    {
        let pair = &section[i];
        let lowered = lowercase_text(pair.0.as_str());
        let option = provider_option(prefix, lowered.as_str(), pair.1.as_str());
        let ghost so_far = options@;
        options.push(option);
        proof {
            assert(pair_texts(options@) =~= pair_texts(so_far).push((option.0@, option.1@)));
            assert(section_options(prefix@, section@.take(i + 1)) =~= section_options(
                prefix@,
                section@.take(i as int),
            ).push((prefix@ + lowercase(pair.0@), pair.1@)));
            assert(pair_texts(options@) =~= pair_texts(before) + section_options(
                prefix@,
                section@.take(i + 1),
            ));
        }
        i += 1;
    }
    assert(section@.take(i as int) =~= section@);
}

/// The options that the provider sections give the object store.
pub fn options_of(
    aws: &Option<AwsConfig>,
    azure: &Option<AzureConfig>,
    gcp: &Option<GcsConfig>,
) -> (options: Vec<(String, String)>)
    ensures
        pair_texts(options@) == provider_options(*aws, *azure, *gcp),
{
    let mut options: Vec<(String, String)> = Vec::new();
    if let Some(section) = aws {
        push_section(&mut options, "aws_", &section.0);
    }
    if let Some(section) = azure {
        push_section(&mut options, "azure_", &section.0);
    }
    if let Some(section) = gcp {
        push_section(&mut options, "google_", &section.0);
    }
    assert(pair_texts(options@) =~= provider_options(*aws, *azure, *gcp));
    options
}

impl WalConfig {
    /// The options for the WAL's object store.
    pub fn cloud_provider_env_vars(&self) -> (options: Vec<(String, String)>)
        ensures
            pair_texts(options@) == provider_options(self.aws, self.azure, self.gcp),
    {
        options_of(&self.aws, &self.azure, &self.gcp)
    }
}

/// `r` is how a section expands: value by value under the same keys, or not for
/// its first value that does not.
pub open spec fn section_expands_to(section: Section, r: Result<Section, LookupFailure>) -> bool {
    match r {
        Ok(expanded) => {
            &&& expanded.pairs().len() == section.pairs().len()
            &&& forall|j: int|
                0 <= j < section.pairs().len() ==> (#[trigger] expanded.pairs()[j]).0@
                    == section.pairs()[j].0@ && expansion(
                    section.pairs()[j].1@,
                    Ok(expanded.pairs()[j].1),
                )
        },
        Err(failure) => exists|j: int|
            {
                &&& 0 <= j < section.pairs().len()
                &&& expansion((#[trigger] section.pairs()[j]).1@, Err(failure))
                &&& forall|k: int| 0 <= k < j ==> expands((#[trigger] section.pairs()[k]).1@)
            },
    }
}

/// Expands the environment variables in the values of a section, each on its
/// own; the keys are taken as they are. The first value that fails is reported.
pub fn expand_section(section: &Section) -> (r: Result<Section, LookupFailure>)
    ensures
        section_expands_to(*section, r),
{
    proof {
        use_type_invariant(section);
    }
    let entries = &section.entries;
    let mut values: Vec<String> = Vec::new();
    let mut i: usize = 0;
    while i < entries.len()
        invariant
            i <= entries@.len(),
            values@.len() == i,
            forall|j: int| 0 <= j < i ==> #[trigger] values@[j] == entries@[j].1,
        decreases entries@.len() - i,
    {
        values.push(entries[i].1.clone());
        i += 1;
    }
    match expand_string_vec(&values) {
        Err(failure) => {
            proof {
                let bad = choose|j: int|
                    {
                        &&& 0 <= j < values@.len()
                        &&& expansion((#[trigger] values@[j])@, Err(failure))
                        &&& forall|k: int| 0 <= k < j ==> expands((#[trigger] values@[k])@)
                    };
                assert(expansion(section.pairs()[bad].1@, Err(failure)));
                assert forall|k: int| 0 <= k < bad implies expands(
                    (#[trigger] section.pairs()[k]).1@,
                ) by {
                    assert(expands(values@[k]@));
                }
            }
            Err(failure)
        },
        Ok(expanded_values) => {
            let mut expanded: Vec<(String, String)> = Vec::new();
            let mut k: usize = 0;
            while k < entries.len()
                invariant
                    k <= entries@.len(),
                    values@.len() == entries@.len(),
                    expanded_values@.len() == entries@.len(),
                    expanded@.len() == k,
                    forall|j: int|
                        0 <= j < entries@.len() ==> #[trigger] values@[j] == entries@[j].1,
                    forall|j: int|
                        0 <= j < values@.len() ==> expansion(
                            (#[trigger] values@[j])@,
                            Ok(expanded_values@[j]),
                        ),
                    forall|j: int|
                        0 <= j < k ==> (#[trigger] expanded@[j]).0@ == entries@[j].0@ && expansion(
                            entries@[j].1@,
                            Ok(expanded@[j].1),
                        ),
                decreases entries@.len() - k,
            {
                assert(expansion(values@[k as int]@, Ok(expanded_values@[k as int])));
                expanded.push((entries[k].0.clone(), expanded_values[k].clone()));
                k += 1;
            }
            assert(distinct_keys(expanded@));
            Ok(Section { entries: expanded })
        },
    }
}

/// There is one option for each configured key.
pub proof fn one_option_per_key(
    aws: Option<AwsConfig>,
    azure: Option<AzureConfig>,
    gcp: Option<GcsConfig>,
)
    ensures
        provider_options(aws, azure, gcp).len() == (match aws {
            Some(section) => section.0.pairs().len(),
            None => 0,
        }) + (match azure {
            Some(section) => section.0.pairs().len(),
            None => 0,
        }) + (match gcp {
            Some(section) => section.0.pairs().len(),
            None => 0,
        }),
{
}

/// Every option carries the prefix of a provider whose section is there.
pub proof fn options_carry_their_provider(
    aws: Option<AwsConfig>,
    azure: Option<AzureConfig>,
    gcp: Option<GcsConfig>,
    i: int,
)
    requires
        0 <= i < provider_options(aws, azure, gcp).len(),
    ensures
        ({
            let name = provider_options(aws, azure, gcp)[i].0;
            ||| aws is Some && "aws_"@.is_prefix_of(name)
            ||| azure is Some && "azure_"@.is_prefix_of(name)
            ||| gcp is Some && "google_"@.is_prefix_of(name)
        }),
{
    let all = provider_options(aws, azure, gcp);
    let name = all[i].0;
    let n: int = match aws {
        Some(section) => section.0.pairs().len() as int,
        None => 0,
    };
    let m: int = match azure {
        Some(section) => section.0.pairs().len() as int,
        None => 0,
    };
    if i < n {
        assert("aws_"@ =~= name.subrange(0, "aws_"@.len() as int));
    } else if i < n + m {
        assert("azure_"@ =~= name.subrange(0, "azure_"@.len() as int));
    } else {
        assert("google_"@ =~= name.subrange(0, "google_"@.len() as int));
    }
}

/// The options of a section are its keys in lower case behind the provider's
/// prefix, in their order, each with its own value as it is: those of AWS, then
/// those of Azure, then those of GCS.
pub proof fn options_are_the_configured_pairs(
    aws: Option<AwsConfig>,
    azure: Option<AzureConfig>,
    gcp: Option<GcsConfig>,
    i: int,
)
    ensures
        ({
            let all = provider_options(aws, azure, gcp);
            let n: int = if aws is Some {
                (aws->0).0.pairs().len() as int
            } else {
                0
            };
            let m: int = if azure is Some {
                (azure->0).0.pairs().len() as int
            } else {
                0
            };
            &&& aws is Some && 0 <= i < n ==> all[i] == (
                "aws_"@ + lowercase((aws->0).0.pairs()[i].0@),
                (aws->0).0.pairs()[i].1@,
            )
            &&& azure is Some && 0 <= i < m ==> all[n + i] == (
                "azure_"@ + lowercase((azure->0).0.pairs()[i].0@),
                (azure->0).0.pairs()[i].1@,
            )
            &&& gcp is Some && 0 <= i < (gcp->0).0.pairs().len() ==> all[n + m + i] == (
                "google_"@ + lowercase((gcp->0).0.pairs()[i].0@),
                (gcp->0).0.pairs()[i].1@,
            )
        }),
{
}

/// Where no key occurs twice, every value is found under its own key, and
/// nothing under any other.
pub proof fn every_value_is_under_its_key(pairs: Seq<(String, String)>, i: int, key: Seq<char>)
    requires
        distinct_keys(pairs),
    ensures
        0 <= i < pairs.len() ==> value_under(pairs, pairs[i].0@) == Some(pairs[i].1@),
        (forall|j: int| 0 <= j < pairs.len() ==> (#[trigger] pairs[j]).0@ != key) <==> value_under(
            pairs,
            key,
        ) is None,
{
    if 0 <= i < pairs.len() {
        value_under_is_at_the_first_place(pairs, pairs[i].0@, i);
    }
    if forall|j: int| 0 <= j < pairs.len() ==> (#[trigger] pairs[j]).0@ != key {
        value_under_is_at_the_first_place(pairs, key, pairs.len() as int);
    } else {
        let at = choose|j: int| 0 <= j < pairs.len() && (#[trigger] pairs[j]).0@ == key;
        value_under_is_at_the_first_place(pairs, key, at);
    }
}

/// Putting a value under a key adds no key that is there and takes none away:
/// the keys keep their places, and a new one goes behind them.
pub proof fn keys_keep_their_places(
    pairs: Seq<(String, String)>,
    key: String,
    value: String,
    i: int,
)
    requires
        0 <= i < pairs.len(),
    ensures
        with_pair(pairs, key, value)[i].0@ == pairs[i].0@,
        value_under(pairs, key@) is None ==> with_pair(pairs, key, value) == pairs.push(
            (key, value),
        ),
        value_under(pairs, key@) is Some ==> with_pair(pairs, key, value).len() == pairs.len(),
    decreases pairs.len(),
{
    let now = with_pair(pairs, key, value);
    if pairs[0].0@ == key@ {
        assert(i == 0 || now[i] == pairs[i]);
    } else {
        let rest = pairs.skip(1);
        assert(now.skip(1) =~= with_pair(rest, key, value));
        if rest.len() == 0 {
            assert(now =~= pairs.push((key, value)));
        } else {
            let at = if i > 0 {
                i - 1
            } else {
                0
            };
            keys_keep_their_places(rest, key, value, at);
            if i > 0 {
                assert(now[i] == with_pair(rest, key, value)[i - 1]);
                assert(rest[i - 1] == pairs[i]);
            }
            if value_under(pairs, key@) is None {
                assert(now =~= pairs.push((key, value)));
            }
        }
    }
}

/// The texts of pairs are those of their keys and values, pair by pair.
pub proof fn pairs_are_shown_pair_by_pair(pairs: Seq<(String, String)>, i: int)
    requires
        0 <= i < pairs.len(),
    ensures
        pair_texts(pairs).len() == pairs.len(),
        pair_texts(pairs)[i].0 == pairs[i].0@,
        pair_texts(pairs)[i].1 == pairs[i].1@,
{
}

/// A section keeps its keys, dollar signs and all, and its values as far as they
/// have no variables; one with no variables in its values always expands.
pub proof fn keys_and_plain_values_stay(section: Section, r: Result<Section, LookupFailure>)
    requires
        section_expands_to(section, r),
    ensures
        r is Err ==> exists|j: int|
            0 <= j < section.pairs().len() && (#[trigger] section.pairs()[j]).1@.contains('$'),
        r matches Ok(expanded) ==> {
            &&& expanded.pairs().len() == section.pairs().len()
            &&& forall|j: int|
                0 <= j < section.pairs().len() ==> (#[trigger] expanded.pairs()[j]).0@
                    == section.pairs()[j].0@
            &&& forall|j: int|
                0 <= j < section.pairs().len() && !section.pairs()[j].1@.contains('$') ==> (
                #[trigger] expanded.pairs()[j]).1@ == section.pairs()[j].1@
        },
{
    match r {
        Ok(expanded) => {
            assert forall|j: int|
                0 <= j < section.pairs().len() && !section.pairs()[j].1@.contains('$') implies (
            #[trigger] expanded.pairs()[j]).1@ == section.pairs()[j].1@ by {
                plain_texts_stay(section.pairs()[j].1@, Ok(expanded.pairs()[j].1));
            }
        },
        Err(failure) => {
            let bad = choose|j: int|
                {
                    &&& 0 <= j < section.pairs().len()
                    &&& expansion((#[trigger] section.pairs()[j]).1@, Err(failure))
                    &&& forall|k: int| 0 <= k < j ==> expands((#[trigger] section.pairs()[k]).1@)
                };
            if plain(section.pairs()[bad].1@) {
                plain_texts_stay(section.pairs()[bad].1@, Err(failure));
            }
        },
    }
}

} // verus!
