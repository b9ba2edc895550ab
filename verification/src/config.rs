//! The configuration proper: raw entries as decoded from the configuration
//! text, and their transformation into immediately usable entries.

use vstd::prelude::*;
use vstd::string::StringExecFns;
use crate::error::Error;
use crate::pattern::{pattern_compiles, capture_names_of, compile_pattern, clone_regex};

verus! {

// ------------------------------------ //
//  deriving names and aliases          //
// ------------------------------------ //

/// The names among `groups`, in order: every unnamed slot is dropped.
pub open spec fn named_of(groups: Seq<Option<Seq<char>>>) -> Seq<Seq<char>>
    decreases groups.len(),
{
    if groups.len() == 0 {
        Seq::empty()
    } else {
        match groups.last() {
            Some(name) => named_of(groups.drop_last()).push(name),
            None => named_of(groups.drop_last()),
        }
    }
}

/// The capture names an entry derives from its pattern's capture groups: the
/// names of the groups past the first two slots. The first slot is the
/// whole match and always unnamed; the second is reserved for the timestamp
/// by convention and skipped whether or not it is named.
pub open spec fn derived_names(groups: Seq<Option<Seq<char>>>) -> Seq<Seq<char>> {
    if groups.len() <= 2 {
        Seq::empty()
    } else {
        named_of(groups.skip(2))
    }
}

/// The metric alias derived for one capture name: `<alias>.<name>`.
pub open spec fn derived_alias(alias: Seq<char>, name: Seq<char>) -> Seq<char> {
    alias + seq!['.'] + name
}

/// The aliases an entry derives: one per capture name, index-aligned.
pub open spec fn derived_aliases(alias: Seq<char>, names: Seq<Seq<char>>) -> Seq<Seq<char>> {
    names.map_values(|name: Seq<char>| derived_alias(alias, name))
}

// ------------------------------------ //
//  structs for deserialized data       //
// ------------------------------------ //

/// The decoded fields of one configured log source.
pub ghost struct LogItemDeserView {
    pub file: Seq<char>,
    pub pattern: Seq<char>,
    pub alias: Seq<char>,
}

/// Holds the data for one log file as decoded from the configuration text,
/// with its regular expression compiled.
pub struct LogItemDeser {
    file: String,
    pattern: String,
    regex: regex::Regex,
    raw_names: Vec<Option<String>>,
    alias: String,
}

impl View for LogItemDeser {
    type V = LogItemDeserView;

    closed spec fn view(&self) -> LogItemDeserView {
        LogItemDeserView { file: self.file@, pattern: self.pattern@, alias: self.alias@ }
    }
}

impl DeepView for LogItemDeser {
    type V = LogItemDeserView;

    open spec fn deep_view(&self) -> LogItemDeserView {
        self.view()
    }
}

impl LogItemDeser {
    #[verifier::type_invariant]
    spec fn wf(self) -> bool {
        &&& pattern_compiles(self.pattern@)
        &&& self.raw_names.deep_view() == capture_names_of(self.pattern@)
    }

    /// Compiles `pattern` and builds one raw entry from the decoded fields;
    /// `None` exactly when the pattern is not a valid regular expression.
    pub fn new(file: String, pattern: String, alias: String) -> (r: Option<LogItemDeser>)
        ensures
            r is Some <==> pattern_compiles(pattern@),
            r matches Some(l) ==> l@ == (LogItemDeserView {
                file: file@,
                pattern: pattern@,
                alias: alias@,
            }),
    {
        match compile_pattern(pattern.as_str()) {
            Some((regex, raw_names)) => Some(LogItemDeser { file, pattern, regex, raw_names, alias }),
            None => None,
        }
    }

    /// The path of the log file this entry watches.
    pub fn file(&self) -> (r: &String)
        ensures
            r@ == self@.file,
    {
        &self.file
    }

    /// The pattern text the entry's regular expression was compiled from.
    pub fn pattern(&self) -> (r: &String)
        ensures
            r@ == self@.pattern,
    {
        &self.pattern
    }

    /// The alias that labels metrics derived from this entry.
    pub fn alias(&self) -> (r: &String)
        ensures
            r@ == self@.alias,
    {
        &self.alias
    }
}

// ------------------------------------ //
//  structs to access data later on     //
// ------------------------------------ //

/// The fields of one usable log source.
pub ghost struct LogItemView {
    pub file: Seq<char>,
    pub alias: Seq<char>,
    pub capture_names: Seq<Seq<char>>,
    pub aliases: Seq<Seq<char>>,
}

/// One usable log source: the raw entry's fields together with the derived
/// capture names and per-capture aliases, computed up front so that
/// downstream consumers only read.
pub struct LogItem {
    file: String,
    regex: regex::Regex,
    alias: String,
    capture_names: Vec<String>,
    aliases: Vec<String>,
}

impl View for LogItem {
    type V = LogItemView;

    closed spec fn view(&self) -> LogItemView {
        LogItemView {
            file: self.file@,
            alias: self.alias@,
            capture_names: self.capture_names.deep_view(),
            aliases: self.aliases.deep_view(),
        }
    }
}

impl DeepView for LogItem {
    type V = LogItemView;

    open spec fn deep_view(&self) -> LogItemView {
        self.view()
    }
}

/// The parallel-sequence invariant of one usable entry: the derived aliases
/// are index-aligned with the capture names, each one the entry's alias, a
/// dot, and the capture name at the same index.
pub open spec fn item_wf(v: LogItemView) -> bool {
    v.aliases == derived_aliases(v.alias, v.capture_names)
}

/// How one usable entry arises from one raw entry.
pub open spec fn item_from(d: LogItemDeserView, v: LogItemView) -> bool {
    &&& v.file == d.file
    &&& v.alias == d.alias
    &&& v.capture_names == derived_names(capture_names_of(d.pattern))
    &&& v.aliases == derived_aliases(d.alias, v.capture_names)
}

impl LogItem {
    #[verifier::type_invariant]
    spec fn wf(self) -> bool {
        item_wf(self@)
    }

    /// Transforms a raw entry into a more immediately usable entry: collects
    /// the names of the capture groups past the two reserved slots and
    /// derives `alias.capture_name` for each, in order. The transformation
    /// itself cannot fail; failures originate upstream, in pattern
    /// compilation.
    pub fn try_from(lid: &LogItemDeser) -> (r: Result<LogItem, Error>)
        ensures
            r is Ok,
            r matches Ok(li) ==> item_from(lid@, li@),
    {
        proof {
            use_type_invariant(lid);
        }
        let ghost groups: Seq<Option<Seq<char>>> = capture_names_of(lid@.pattern);

        // first capture is the whole match and nameless,
        // second capture is always the timestamp: both are skipped
        let mut capture_names: Vec<String> = Vec::new();
        let n = lid.raw_names.len();
        if n > 2 {
            let mut i: usize = 2;
            while i < n
                invariant
                    2 <= i <= n,
                    n == lid.raw_names.len(),
                    groups == lid.raw_names.deep_view(),
                    capture_names.deep_view() == named_of(groups.subrange(2, i as int)),
                decreases n - i,
            {
                let ghost prev = capture_names.deep_view();
                match &lid.raw_names[i] {
                    Some(name) => {
                        capture_names.push(name.clone());
                        proof {
                            assert(capture_names.deep_view() =~= prev.push(name@));
                        }
                    },
                    None => {},
                }
                proof {
                    assert(groups.subrange(2, i + 1).drop_last() =~= groups.subrange(
                        2,
                        i as int,
                    ));
                    assert(groups.subrange(2, i + 1).last() == groups[i as int]);
                }
                i += 1;
            }
            proof {
                assert(groups.subrange(2, n as int) =~= groups.skip(2));
            }
        }
        assert(capture_names.deep_view() == derived_names(groups));

        // the metric seen downstream is `alias.capturegroup_name`: one regex
        // may contain several named capture groups, so all of them are
        // prepared here
        let ghost names = capture_names.deep_view();
        let mut aliases: Vec<String> = Vec::new();
        let mut j: usize = 0;
        while j < capture_names.len()
            invariant
                j <= capture_names.len(),
                names == capture_names.deep_view(),
                aliases.deep_view() == derived_aliases(lid@.alias, names.take(j as int)),
            decreases capture_names.len() - j,
        {
            let ghost prev = aliases.deep_view();
            let mut derived = lid.alias.clone();
            derived.append(".");
            derived.append(capture_names[j].as_str());
            proof {
                reveal_strlit(".");
                assert(derived@ =~= derived_alias(lid@.alias, names[j as int]));
            }
            aliases.push(derived);
            proof {
                assert(aliases.deep_view() =~= prev.push(
                    derived_alias(lid@.alias, names[j as int]),
                ));
                assert(derived_aliases(lid@.alias, names.take(j + 1)) =~= aliases.deep_view());
            }
            j += 1;
        }
        proof {
            assert(names.take(capture_names.len() as int) =~= names);
        }

        Ok(
            LogItem {
                file: lid.file.clone(),
                regex: clone_regex(&lid.regex),
                alias: lid.alias.clone(),
                capture_names,
                aliases,
            },
        )
    }

    /// The path of the log file this entry watches.
    pub fn file(&self) -> (r: &String)
        ensures
            r@ == self@.file,
    {
        &self.file
    }

    /// The compiled regular expression that extracts this entry's fields.
    pub fn regex(&self) -> &regex::Regex {
        &self.regex
    }

    /// The alias that labels metrics derived from this entry.
    pub fn alias(&self) -> (r: &String)
        ensures
            r@ == self@.alias,
    {
        &self.alias
    }

    /// The names of the capture groups past the two reserved slots, in
    /// declaration order.
    pub fn capture_names(&self) -> (r: &Vec<String>)
        ensures
            r.deep_view() == self@.capture_names,
    {
        &self.capture_names
    }

    /// The derived aliases, index-aligned with `capture_names`.
    pub fn aliases(&self) -> (r: &Vec<String>)
        ensures
            r.deep_view() == self@.aliases,
    {
        &self.aliases
    }
}

/// The decoded configuration: the ordered raw entries, one per `[[item]]`
/// table of the configuration text.
pub struct ConfigDeser {
    item: Vec<LogItemDeser>,
}

impl View for ConfigDeser {
    type V = Seq<LogItemDeserView>;

    closed spec fn view(&self) -> Seq<LogItemDeserView> {
        self.item.deep_view()
    }
}

impl ConfigDeser {
    /// Builds the raw configuration from the decoded items, compiling each
    /// entry's regular expression. Reading the configuration file and
    /// decoding its text into `(file, regex, alias)` triples is the caller's
    /// part; an entry whose regex does not compile makes the whole load fail
    /// with a parse error carrying `path`.
    pub fn load(items: Vec<(String, String, String)>, path: &str) -> (r: Result<ConfigDeser, Error>)
        ensures
            r is Ok <==> (forall|k: int|
                0 <= k < items@.len() ==> pattern_compiles(#[trigger] items@[k].1@)),
            r matches Ok(c) ==> c@.len() == items@.len() && (forall|k: int|
                0 <= k < items@.len() ==> c@[k] == (LogItemDeserView {
                    file: items@[k].0@,
                    pattern: items@[k].1@,
                    alias: items@[k].2@,
                })),
            r matches Err(e) ==> e matches Error::ConfigParseError(p) && p@ == path@,
    {
        let mut item: Vec<LogItemDeser> = Vec::new();
        let mut i: usize = 0;
        while i < items.len()
            invariant
                i <= items.len(),
                item.deep_view().len() == i,
                forall|k: int| 0 <= k < i ==> pattern_compiles(#[trigger] items@[k].1@),
                forall|k: int|
                    0 <= k < i ==> item.deep_view()[k] == (LogItemDeserView {
                        file: items@[k].0@,
                        pattern: items@[k].1@,
                        alias: items@[k].2@,
                    }),
            decreases items.len() - i,
        {
            let (file, pattern, alias) = &items[i];
            match LogItemDeser::new(file.clone(), pattern.clone(), alias.clone()) {
                Some(lid) => {
                    let ghost prev = item.deep_view();
                    let ghost lv = lid@;
                    item.push(lid);
                    proof {
                        assert(item.deep_view() =~= prev.push(lv));
                    }
                },
                None => {
                    return Err(Error::ConfigParseError(path.to_owned()));
                },
            }
            i += 1;
        }
        Ok(ConfigDeser { item })
    }

    /// The raw entries, in the order the configuration text declares them.
    pub fn get_items(&self) -> (r: &Vec<LogItemDeser>)
        ensures
            r.deep_view() == self@,
    {
        &self.item
    }
}

// ------------------------------------ //
//  the aggregated configuration        //
// ------------------------------------ //

/// The fields of the aggregated configuration.
pub ghost struct ConfigView {
    pub items: Seq<LogItemView>,
    pub all_aliases: Seq<Seq<char>>,
}

/// The concatenation, in entry order then capture order, of every entry's
/// derived aliases; duplicates arising from different entries are kept.
pub open spec fn concat_aliases(items: Seq<LogItemView>) -> Seq<Seq<char>>
    decreases items.len(),
{
    if items.len() == 0 {
        Seq::empty()
    } else {
        concat_aliases(items.drop_last()) + items.last().aliases
    }
}

/// The whole-configuration invariant: every entry satisfies the
/// parallel-sequence invariant, and the flat alias list is exactly the
/// concatenation of the entries' derived aliases.
pub open spec fn config_wf(v: ConfigView) -> bool {
    &&& forall|k: int| 0 <= k < v.items.len() ==> item_wf(#[trigger] v.items[k])
    &&& v.all_aliases == concat_aliases(v.items)
}

/// Contains more immediately usable data: the transformed entries and, for
/// the search endpoint, every derived alias in one flat list.
pub struct Config {
    items: Vec<LogItem>,
    all_aliases: Vec<String>,
}

impl View for Config {
    type V = ConfigView;

    closed spec fn view(&self) -> ConfigView {
        ConfigView { items: self.items.deep_view(), all_aliases: self.all_aliases.deep_view() }
    }
}

impl Config {
    #[verifier::type_invariant]
    spec fn wf(self) -> bool {
        config_wf(self@)
    }

    /// Transforms every raw entry, in order, and combines all derived
    /// aliases into one flat list, without deduplication.
    pub fn load(conf_deser: &ConfigDeser) -> (r: Result<Config, Error>)
        ensures
            r is Ok,
            r matches Ok(c) ==> c@.items.len() == conf_deser@.len() && config_wf(c@) && (
            forall|k: int|
                0 <= k < conf_deser@.len() ==> item_from(conf_deser@[k], #[trigger] c@.items[k])),
    {
        let raw_items = conf_deser.get_items();
        let mut items: Vec<LogItem> = Vec::new();
        let mut i: usize = 0;
        while i < raw_items.len()
            invariant
                i <= raw_items.len(),
                raw_items.deep_view() == conf_deser@,
                items.deep_view().len() == i,
                forall|k: int|
                    0 <= k < i ==> item_from(conf_deser@[k], #[trigger] items.deep_view()[k]),
            decreases raw_items.len() - i,
        {
            match LogItem::try_from(&raw_items[i]) {
                Ok(li) => {
                    let ghost prev = items.deep_view();
                    let ghost lv = li@;
                    items.push(li);
                    proof {
                        assert(items.deep_view() =~= prev.push(lv));
                    }
                },
                Err(e) => {
                    return Err(e);
                },
            }
            i += 1;
        }

        // combines all aliases into one Vec for the search endpoint
        let mut all_aliases: Vec<String> = Vec::new();
        let ghost item_views = items.deep_view();
        let mut i: usize = 0;
        while i < items.len()
            invariant
                i <= items.len(),
                item_views == items.deep_view(),
                all_aliases.deep_view() == concat_aliases(item_views.take(i as int)),
            decreases items.len() - i,
        {
            let entry_aliases = items[i].aliases();
            let mut j: usize = 0;
            while j < entry_aliases.len()
                invariant
                    j <= entry_aliases.len(),
                    item_views == items.deep_view(),
                    i < items.len(),
                    entry_aliases.deep_view() == item_views[i as int].aliases,
                    all_aliases.deep_view() == concat_aliases(item_views.take(i as int))
                        + item_views[i as int].aliases.take(j as int),
                decreases entry_aliases.len() - j,
            {
                let ghost prev = all_aliases.deep_view();
                all_aliases.push(entry_aliases[j].clone());
                proof {
                    assert(all_aliases.deep_view() =~= prev.push(
                        item_views[i as int].aliases[j as int],
                    ));
                    assert(all_aliases.deep_view() =~= concat_aliases(item_views.take(i as int))
                        + item_views[i as int].aliases.take(j + 1));
                }
                j += 1;
            }
            proof {
                assert(item_views.take(i + 1).drop_last() =~= item_views.take(i as int));
                assert(item_views[i as int].aliases.take(entry_aliases.len() as int)
                    =~= item_views[i as int].aliases);
                assert(all_aliases.deep_view() =~= concat_aliases(item_views.take(i + 1)));
            }
            i += 1;
        }
        proof {
            assert(item_views.take(items.len() as int) =~= item_views);
        }

        Ok(Config { items, all_aliases })
    }

    /// The usable entries, in the order the configuration text declares
    /// them.
    pub fn items(&self) -> (r: &Vec<LogItem>)
        ensures
            r.deep_view() == self@.items,
    {
        &self.items
    }

    /// Every derived alias of every entry, in entry order then capture
    /// order, without deduplication.
    pub fn all_aliases(&self) -> (r: &Vec<String>)
        ensures
            r.deep_view() == self@.all_aliases,
    {
        &self.all_aliases
    }
}

// ------------------------------------ //
//  laws                                //
// ------------------------------------ //

/// Law: for an entry satisfying the parallel-sequence invariant, the derived
/// aliases and the capture names have the same length, and at every index the
/// derived alias is the entry's alias, a dot, then the capture name at that
/// index.
pub proof fn lemma_entry_alias_shape(v: LogItemView)
    requires
        item_wf(v),
    ensures
        v.aliases.len() == v.capture_names.len(),
        forall|i: int|
            0 <= i < v.capture_names.len() ==> v.aliases[i] == v.alias + seq!['.']
                + v.capture_names[i],
{
}

/// Law: in a well-formed configuration every entry has the alias shape of
/// `lemma_entry_alias_shape`: aligned lengths, and `alias.capture_name` at
/// every index.
pub proof fn lemma_config_alias_shape(v: ConfigView)
    requires
        config_wf(v),
    ensures
        forall|k: int, i: int|
            0 <= k < v.items.len() && 0 <= i < v.items[k].capture_names.len()
                ==> #[trigger] v.items[k].aliases[i] == v.items[k].alias + seq!['.']
                + v.items[k].capture_names[i],
        forall|k: int|
            0 <= k < v.items.len() ==> (#[trigger] v.items[k].aliases).len()
                == v.items[k].capture_names.len(),
{
    assert forall|k: int| 0 <= k < v.items.len() implies (#[trigger] v.items[k]).aliases.len()
        == v.items[k].capture_names.len() && (forall|i: int|
        0 <= i < v.items[k].capture_names.len() ==> v.items[k].aliases[i] == v.items[k].alias
            + seq!['.'] + v.items[k].capture_names[i]) by {
        lemma_entry_alias_shape(v.items[k]);
    }
}

proof fn lemma_concat_aliases_is_flatten_alt(items: Seq<LogItemView>)
    ensures
        concat_aliases(items) == items.map_values(|v: LogItemView| v.aliases).flatten_alt(),
    decreases items.len(),
{
    let mapped = items.map_values(|v: LogItemView| v.aliases);
    if items.len() == 0 {
        assert(concat_aliases(items) =~= mapped.flatten_alt());
    } else {
        lemma_concat_aliases_is_flatten_alt(items.drop_last());
        assert(items.drop_last().map_values(|v: LogItemView| v.aliases) =~= mapped.drop_last());
    }
}

/// Law: a well-formed configuration's flat alias list equals the
/// order-preserving concatenation of every entry's derived aliases, in entry
/// order then capture order.
pub proof fn lemma_all_aliases_flatten(v: ConfigView)
    requires
        config_wf(v),
    ensures
        v.all_aliases == v.items.map_values(|e: LogItemView| e.aliases).flatten(),
{
    lemma_concat_aliases_is_flatten_alt(v.items);
    v.items.map_values(|e: LogItemView| e.aliases).lemma_flatten_and_flatten_alt_are_equivalent();
}

proof fn lemma_named_of_all_none(groups: Seq<Option<Seq<char>>>)
    requires
        forall|i: int| 0 <= i < groups.len() ==> groups[i] is None,
    ensures
        named_of(groups) == Seq::<Seq<char>>::empty(),
    decreases groups.len(),
{
    if groups.len() > 0 {
        lemma_named_of_all_none(groups.drop_last());
    }
}

/// Law: a pattern with no named capture groups past the two reserved slots
/// (in particular one with at most two groups) derives no capture names and
/// no aliases.
pub proof fn lemma_no_names_past_reserved(groups: Seq<Option<Seq<char>>>, alias: Seq<char>)
    requires
        forall|i: int| 2 <= i < groups.len() ==> groups[i] is None,
    ensures
        derived_names(groups) == Seq::<Seq<char>>::empty(),
        derived_aliases(alias, derived_names(groups)) == Seq::<Seq<char>>::empty(),
{
    if groups.len() > 2 {
        lemma_named_of_all_none(groups.skip(2));
    }
    assert(derived_aliases(alias, derived_names(groups)) =~= Seq::<Seq<char>>::empty());
}

} // verus!
