//! The table of display names in English and Russian.

use vstd::prelude::*;

use crate::station::decode;
use crate::text::{
    decimal_text, chars_differ_from, differs_from_all, lemma_pairwise_differ, pairwise_differ_from,
    push_decimal, str_equal,
};

verus! {

/// Language code of the table that every lookup falls back to.
pub open spec fn fallback_language() -> Seq<char> {
    "en"@
}

/// The English entries in table order: measurement labels, then the sixteen
/// compass points clockwise from north.
pub open spec fn english_pairs() -> Seq<(Seq<char>, Seq<char>)> {
    seq![
        ("indoor_humidity"@, "Indoor Humidity"@),
        ("outdoor_humidity"@, "Outdoor Humidity"@),
        ("indoor_temperature"@, "Indoor Temperature"@),
        ("outdoor_temperature"@, "Outdoor Temperature"@),
        ("outdoor_dew_point"@, "Outdoor Dew Point"@),
        ("wind_chill_temp"@, "Wind Chill Temperature"@),
        ("wind_speed"@, "Wind Speed"@),
        ("gust_speed"@, "Gust Speed"@),
        ("wind_direction"@, "Wind Direction"@),
        ("rain_diff"@, "Rainfall"@),
        ("total_rain"@, "Total Rainfall"@),
        ("abs_pressure"@, "Atmospheric Pressure"@),
        ("wind_dir_0"@, "N"@),
        ("wind_dir_1"@, "NNE"@),
        ("wind_dir_2"@, "NE"@),
        ("wind_dir_3"@, "ENE"@),
        ("wind_dir_4"@, "E"@),
        ("wind_dir_5"@, "ESE"@),
        ("wind_dir_6"@, "SE"@),
        ("wind_dir_7"@, "SSE"@),
        ("wind_dir_8"@, "S"@),
        ("wind_dir_9"@, "SSW"@),
        ("wind_dir_10"@, "SW"@),
        ("wind_dir_11"@, "WSW"@),
        ("wind_dir_12"@, "W"@),
        ("wind_dir_13"@, "WNW"@),
        ("wind_dir_14"@, "NW"@),
        ("wind_dir_15"@, "NNW"@),
    ]
}

/// The English names: measurement labels and the sixteen compass points.
pub open spec fn english_names() -> Map<Seq<char>, Seq<char>> {
    last_wins(english_pairs())
}

/// The Russian entries in table order: measurement labels, then the sixteen
/// compass points clockwise from north.
pub open spec fn russian_pairs() -> Seq<(Seq<char>, Seq<char>)> {
    seq![
        ("indoor_humidity"@, "Влажность внутри"@),
        ("outdoor_humidity"@, "Влажность снаружи"@),
        ("indoor_temperature"@, "Температура внутри"@),
        ("outdoor_temperature"@, "Температура снаружи"@),
        ("outdoor_dew_point"@, "Точка росы снаружи"@),
        ("wind_chill_temp"@, "Ощущаемая температура"@),
        ("wind_speed"@, "Скорость ветра"@),
        ("gust_speed"@, "Скорость порывов ветра"@),
        ("wind_direction"@, "Направление ветра"@),
        ("rain_diff"@, "Количество осадков"@),
        ("total_rain"@, "Общее количество осадков"@),
        ("abs_pressure"@, "Давление"@),
        ("wind_dir_0"@, "С"@),
        ("wind_dir_1"@, "ССВ"@),
        ("wind_dir_2"@, "СВ"@),
        ("wind_dir_3"@, "ВСВ"@),
        ("wind_dir_4"@, "В"@),
        ("wind_dir_5"@, "ВЮВ"@),
        ("wind_dir_6"@, "ЮВ"@),
        ("wind_dir_7"@, "ЮЮВ"@),
        ("wind_dir_8"@, "Ю"@),
        ("wind_dir_9"@, "ЮЮЗ"@),
        ("wind_dir_10"@, "ЮЗ"@),
        ("wind_dir_11"@, "ЗЮЗ"@),
        ("wind_dir_12"@, "З"@),
        ("wind_dir_13"@, "ЗСЗ"@),
        ("wind_dir_14"@, "СЗ"@),
        ("wind_dir_15"@, "ССЗ"@),
    ]
}

/// The Russian names: measurement labels and the sixteen compass points.
pub open spec fn russian_names() -> Map<Seq<char>, Seq<char>> {
    last_wins(russian_pairs())
}

/// The table that `Translations::new` builds: language code to key to name.
pub open spec fn default_names() -> Map<Seq<char>, Map<Seq<char>, Seq<char>>> {
    map![
        "en"@ => english_names(),
        "ru"@ => russian_names(),
    ]
}

/// The name of `key` in `language`: the language's own entry, else the
/// English entry, else the key itself.
pub open spec fn translate(
    table: Map<Seq<char>, Map<Seq<char>, Seq<char>>>,
    language: Seq<char>,
    key: Seq<char>,
) -> Seq<char> {
    if table.contains_key(language) && table[language].contains_key(key) {
        table[language][key]
    } else if table.contains_key(fallback_language()) && table[fallback_language()].contains_key(key) {
        table[fallback_language()][key]
    } else {
        key
    }
}

/// The lookup key of compass point number `index`.
pub open spec fn wind_key(index: nat) -> Seq<char> {
    "wind_dir_"@ + decimal_text(index)
}

/// Key-value pairs taken in order into a map: a later pair for a key replaces
/// an earlier one.
pub open spec fn last_wins<W>(pairs: Seq<(Seq<char>, W)>) -> Map<Seq<char>, W>
    decreases pairs.len(),
{
    if pairs.len() == 0 {
        Map::empty()
    } else {
        last_wins(pairs.drop_last()).insert(pairs.last().0, pairs.last().1)
    }
}

/// The key and name of each entry, as text.
pub open spec fn entry_pairs(entries: Seq<(String, String)>) -> Seq<(Seq<char>, Seq<char>)> {
    entries.map_values(|e: (String, String)| (e.0@, e.1@))
}

/// Entries in insertion order; a later entry for the same key replaces an earlier one.
pub open spec fn entries_map(entries: Seq<(String, String)>) -> Map<Seq<char>, Seq<char>> {
    last_wins(entry_pairs(entries))
}

struct LanguageTable {
    language: String,
    entries: Vec<(String, String)>,
}

/// The language code and the names of each table.
spec fn table_pairs(tables: Seq<LanguageTable>) -> Seq<(Seq<char>, Map<Seq<char>, Seq<char>>)> {
    tables.map_values(|t: LanguageTable| (t.language@, entries_map(t.entries@)))
}

/// Tables in insertion order; a later table for the same language replaces an earlier one.
spec fn tables_map(tables: Seq<LanguageTable>) -> Map<Seq<char>, Map<Seq<char>, Seq<char>>> {
    last_wins(table_pairs(tables))
}

/// Display names of the measurements and compass points, by language.
pub struct Translations {
    tables: Vec<LanguageTable>,
}

impl View for Translations {
    type V = Map<Seq<char>, Map<Seq<char>, Seq<char>>>;

    closed spec fn view(&self) -> Self::V {
        tables_map(self.tables@)
    }
}

fn add_entry(entries: &mut Vec<(String, String)>, key: &str, name: &str)
    ensures
        entry_pairs(final(entries)@) == entry_pairs(old(entries)@).push((key@, name@)),
{
    let ghost before = entries@;
    entries.push((String::from_str(key), String::from_str(name)));
    assert(entry_pairs(entries@) =~= entry_pairs(before).push((key@, name@)));
}

/// The English entries, in the order of the table.
fn english_entries() -> (entries: Vec<(String, String)>)
    ensures
        entry_pairs(entries@) == english_pairs(),
        entries_map(entries@) == english_names(),
{
    let mut entries: Vec<(String, String)> = Vec::new();
    add_entry(&mut entries, "indoor_humidity", "Indoor Humidity");
    add_entry(&mut entries, "outdoor_humidity", "Outdoor Humidity");
    add_entry(&mut entries, "indoor_temperature", "Indoor Temperature");
    add_entry(&mut entries, "outdoor_temperature", "Outdoor Temperature");
    add_entry(&mut entries, "outdoor_dew_point", "Outdoor Dew Point");
    add_entry(&mut entries, "wind_chill_temp", "Wind Chill Temperature");
    add_entry(&mut entries, "wind_speed", "Wind Speed");
    add_entry(&mut entries, "gust_speed", "Gust Speed");
    add_entry(&mut entries, "wind_direction", "Wind Direction");
    add_entry(&mut entries, "rain_diff", "Rainfall");
    add_entry(&mut entries, "total_rain", "Total Rainfall");
    add_entry(&mut entries, "abs_pressure", "Atmospheric Pressure");
    add_entry(&mut entries, "wind_dir_0", "N");
    add_entry(&mut entries, "wind_dir_1", "NNE");
    add_entry(&mut entries, "wind_dir_2", "NE");
    add_entry(&mut entries, "wind_dir_3", "ENE");
    add_entry(&mut entries, "wind_dir_4", "E");
    add_entry(&mut entries, "wind_dir_5", "ESE");
    add_entry(&mut entries, "wind_dir_6", "SE");
    add_entry(&mut entries, "wind_dir_7", "SSE");
    add_entry(&mut entries, "wind_dir_8", "S");
    add_entry(&mut entries, "wind_dir_9", "SSW");
    add_entry(&mut entries, "wind_dir_10", "SW");
    add_entry(&mut entries, "wind_dir_11", "WSW");
    add_entry(&mut entries, "wind_dir_12", "W");
    add_entry(&mut entries, "wind_dir_13", "WNW");
    add_entry(&mut entries, "wind_dir_14", "NW");
    add_entry(&mut entries, "wind_dir_15", "NNW");
    assert(entry_pairs(entries@) =~= english_pairs());
    entries
}

/// The Russian entries, in the order of the table.
fn russian_entries() -> (entries: Vec<(String, String)>)
    ensures
        entry_pairs(entries@) == russian_pairs(),
        entries_map(entries@) == russian_names(),
{
    let mut entries: Vec<(String, String)> = Vec::new();
    add_entry(&mut entries, "indoor_humidity", "Влажность внутри");
    add_entry(&mut entries, "outdoor_humidity", "Влажность снаружи");
    add_entry(&mut entries, "indoor_temperature", "Температура внутри");
    add_entry(&mut entries, "outdoor_temperature", "Температура снаружи");
    add_entry(&mut entries, "outdoor_dew_point", "Точка росы снаружи");
    add_entry(&mut entries, "wind_chill_temp", "Ощущаемая температура");
    add_entry(&mut entries, "wind_speed", "Скорость ветра");
    add_entry(&mut entries, "gust_speed", "Скорость порывов ветра");
    add_entry(&mut entries, "wind_direction", "Направление ветра");
    add_entry(&mut entries, "rain_diff", "Количество осадков");
    add_entry(&mut entries, "total_rain", "Общее количество осадков");
    add_entry(&mut entries, "abs_pressure", "Давление");
    add_entry(&mut entries, "wind_dir_0", "С");
    add_entry(&mut entries, "wind_dir_1", "ССВ");
    add_entry(&mut entries, "wind_dir_2", "СВ");
    add_entry(&mut entries, "wind_dir_3", "ВСВ");
    add_entry(&mut entries, "wind_dir_4", "В");
    add_entry(&mut entries, "wind_dir_5", "ВЮВ");
    add_entry(&mut entries, "wind_dir_6", "ЮВ");
    add_entry(&mut entries, "wind_dir_7", "ЮЮВ");
    add_entry(&mut entries, "wind_dir_8", "Ю");
    add_entry(&mut entries, "wind_dir_9", "ЮЮЗ");
    add_entry(&mut entries, "wind_dir_10", "ЮЗ");
    add_entry(&mut entries, "wind_dir_11", "ЗЮЗ");
    add_entry(&mut entries, "wind_dir_12", "З");
    add_entry(&mut entries, "wind_dir_13", "ЗСЗ");
    add_entry(&mut entries, "wind_dir_14", "СЗ");
    add_entry(&mut entries, "wind_dir_15", "ССЗ");
    assert(entry_pairs(entries@) =~= russian_pairs());
    entries
}

/// Pairs after position `i` that carry other keys leave the entry of `key`
/// as the first `i` pairs made it.
proof fn lemma_last_wins_suffix<W>(pairs: Seq<(Seq<char>, W)>, key: Seq<char>, i: int)
    requires
        0 <= i <= pairs.len(),
        forall|j: int| i <= j < pairs.len() ==> #[trigger] pairs[j].0 != key,
    ensures
        last_wins(pairs).contains_key(key) == last_wins(pairs.take(i)).contains_key(key),
        last_wins(pairs).contains_key(key) ==> last_wins(pairs)[key] == last_wins(pairs.take(i))[key],
    decreases pairs.len(),
{
    if pairs.len() == i {
        assert(pairs.take(i) == pairs);
    } else {
        let shorter = pairs.drop_last();
        assert(shorter.take(i) == pairs.take(i));
        assert(pairs[pairs.len() - 1].0 != key);
        lemma_last_wins_suffix(shorter, key, i);
    }
}

/// A key has an entry exactly when some pair carries it.
proof fn lemma_last_wins_domain<W>(pairs: Seq<(Seq<char>, W)>, key: Seq<char>)
    ensures
        last_wins(pairs).contains_key(key) <==> exists|j: int| 0 <= j < pairs.len() && #[trigger] pairs[j].0 == key,
    decreases pairs.len(),
{
    if pairs.len() > 0 {
        let shorter = pairs.drop_last();
        lemma_last_wins_domain(shorter, key);
        if exists|j: int| 0 <= j < pairs.len() && #[trigger] pairs[j].0 == key {
            let j = choose|j: int| 0 <= j < pairs.len() && #[trigger] pairs[j].0 == key;
            if j < pairs.len() - 1 {
                assert(shorter[j].0 == key);
            }
        }
        if exists|j: int| 0 <= j < shorter.len() && #[trigger] shorter[j].0 == key {
            let j = choose|j: int| 0 <= j < shorter.len() && #[trigger] shorter[j].0 == key;
            assert(pairs[j].0 == key);
        }
    }
}

/// The keys of a list of pairs, in order.
pub open spec fn pair_keys<W>(pairs: Seq<(Seq<char>, W)>) -> Seq<Seq<char>> {
    pairs.map_values(|p: (Seq<char>, W)| p.0)
}

/// Where no two pairs share a key, each pair's key maps to its value.
proof fn lemma_last_wins_lookup<W>(pairs: Seq<(Seq<char>, W)>, i: int)
    requires
        0 <= i < pairs.len(),
        pairwise_differ_from(pair_keys(pairs), 0),
    ensures
        last_wins(pairs).contains_key(pairs[i].0),
        last_wins(pairs)[pairs[i].0] == pairs[i].1,
{
    let keys = pair_keys(pairs);
    lemma_pairwise_differ(keys, 0);
    assert forall|j: int| i + 1 <= j < pairs.len() implies #[trigger] pairs[j].0 != pairs[i].0 by {
        assert(keys[i] != keys[j]);
    }
    lemma_last_wins_suffix(pairs, pairs[i].0, i + 1);
    let head = pairs.take(i + 1);
    assert(head.drop_last() == pairs.take(i));
    assert(head.last() == pairs[i]);
}

/// The lookup keys of the sixteen compass points, clockwise from north.
spec fn compass_keys() -> Seq<Seq<char>> {
    seq![
        "wind_dir_0"@, "wind_dir_1"@, "wind_dir_2"@, "wind_dir_3"@,
        "wind_dir_4"@, "wind_dir_5"@, "wind_dir_6"@, "wind_dir_7"@,
        "wind_dir_8"@, "wind_dir_9"@, "wind_dir_10"@, "wind_dir_11"@,
        "wind_dir_12"@, "wind_dir_13"@, "wind_dir_14"@, "wind_dir_15"@,
    ]
}

/// Both tables list the same keys in the same order, no key twice, with the
/// compass points after the twelve measurement labels.
proof fn lemma_table_keys()
    ensures
        pairwise_differ_from(pair_keys(english_pairs()), 0),
        pair_keys(russian_pairs()) == pair_keys(english_pairs()),
        pair_keys(english_pairs()).len() == 28,
        pair_keys(english_pairs()).subrange(12, 28) == compass_keys(),
{
    assert(pair_keys(russian_pairs()) =~= pair_keys(english_pairs()));
    assert(pair_keys(english_pairs()).subrange(12, 28) =~= compass_keys());
    assert(pairwise_differ_from(pair_keys(english_pairs()), 0)) by {
        reveal_strlit("indoor_humidity");
        reveal_strlit("outdoor_humidity");
        reveal_strlit("indoor_temperature");
        reveal_strlit("outdoor_temperature");
        reveal_strlit("outdoor_dew_point");
        reveal_strlit("wind_chill_temp");
        reveal_strlit("wind_speed");
        reveal_strlit("gust_speed");
        reveal_strlit("wind_direction");
        reveal_strlit("rain_diff");
        reveal_strlit("total_rain");
        reveal_strlit("abs_pressure");
        reveal_strlit("wind_dir_0");
        reveal_strlit("wind_dir_1");
        reveal_strlit("wind_dir_2");
        reveal_strlit("wind_dir_3");
        reveal_strlit("wind_dir_4");
        reveal_strlit("wind_dir_5");
        reveal_strlit("wind_dir_6");
        reveal_strlit("wind_dir_7");
        reveal_strlit("wind_dir_8");
        reveal_strlit("wind_dir_9");
        reveal_strlit("wind_dir_10");
        reveal_strlit("wind_dir_11");
        reveal_strlit("wind_dir_12");
        reveal_strlit("wind_dir_13");
        reveal_strlit("wind_dir_14");
        reveal_strlit("wind_dir_15");
        reveal_with_fuel(pairwise_differ_from, 29);
        reveal_with_fuel(differs_from_all, 29);
        reveal_with_fuel(chars_differ_from, 11);
    }
}

/// The position of the entry that decides the name of `key`, if any.
fn find_entry(entries: &Vec<(String, String)>, key: &str) -> (res: Option<usize>)
    ensures
        match res {
            Some(i) => {
                &&& i < entries@.len()
                &&& entries_map(entries@).contains_key(key@)
                &&& entries_map(entries@)[key@] == entries@[i as int].1@
            },
            None => !entries_map(entries@).contains_key(key@),
        },
{
    let mut i: usize = entries.len();
    while i > 0
        invariant
            i <= entries@.len(),
            forall|j: int| i <= j < entries@.len() ==> #[trigger] entries@[j].0@ != key@,
        decreases i,
    {
        let j = i - 1;
        if str_equal(entries[j].0.as_str(), key) {
            proof {
                let pairs = entry_pairs(entries@);
                assert forall|k: int| i <= k < pairs.len() implies #[trigger] pairs[k].0 != key@ by {
                    assert(entries@[k].0@ != key@);
                }
                lemma_last_wins_suffix(pairs, key@, i as int);
                assert(pairs.take(i as int).drop_last() == pairs.take(j as int));
                assert(pairs.take(i as int).last() == pairs[j as int]);
            }
            return Some(j);
        }
        i = j;
    }
    proof {
        let pairs = entry_pairs(entries@);
        assert forall|k: int| 0 <= k < pairs.len() implies #[trigger] pairs[k].0 != key@ by {
            assert(entries@[k].0@ != key@);
        }
        lemma_last_wins_suffix(pairs, key@, 0);
    }
    None
}

impl Translations {
    #[verifier::type_invariant]
    spec fn languages_distinct(self) -> bool {
        forall|i: int, j: int|
            0 <= i < j < self.tables@.len() ==> self.tables@[i].language@
                != self.tables@[j].language@
    }

    /// The position of the table that decides the names of `language`, if any.
    fn find_table(&self, language: &str) -> (res: Option<usize>)
        ensures
            match res {
                Some(i) => {
                    &&& i < self.tables@.len()
                    &&& self@.contains_key(language@)
                    &&& self@[language@] == entries_map(self.tables@[i as int].entries@)
                },
                None => !self@.contains_key(language@),
            },
    {
        let mut i: usize = self.tables.len();
        while i > 0
            invariant
                i <= self.tables@.len(),
                forall|j: int| i <= j < self.tables@.len() ==> #[trigger] self.tables@[j].language@ != language@,
            decreases i,
        {
            let j = i - 1;
            if str_equal(self.tables[j].language.as_str(), language) {
                proof {
                    let pairs = table_pairs(self.tables@);
                    assert forall|k: int| i <= k < pairs.len() implies #[trigger] pairs[k].0 != language@ by {
                        assert(self.tables@[k].language@ != language@);
                    }
                    lemma_last_wins_suffix(pairs, language@, i as int);
                    assert(pairs.take(i as int).drop_last() == pairs.take(j as int));
                    assert(pairs.take(i as int).last() == pairs[j as int]);
                }
                return Some(j);
            }
            i = j;
        }
        proof {
            let pairs = table_pairs(self.tables@);
            assert forall|k: int| 0 <= k < pairs.len() implies #[trigger] pairs[k].0 != language@ by {
                assert(self.tables@[k].language@ != language@);
            }
            lemma_last_wins_suffix(pairs, language@, 0);
        }
        None
    }

    /// The English and Russian tables.
    pub fn new() -> (t: Self)
        ensures
            t@ == default_names(),
    {
        let en = LanguageTable { language: String::from_str("en"), entries: english_entries() };
        let ru = LanguageTable { language: String::from_str("ru"), entries: russian_entries() };
        proof {
            reveal_strlit("en");
            reveal_strlit("ru");
        }
        let mut tables: Vec<LanguageTable> = Vec::new();
        tables.push(en);
        tables.push(ru);
        proof {
            assert("en"@[0] != "ru"@[0]);
            assert(tables@[0].language@ != tables@[1].language@);
            let pairs = table_pairs(tables@);
            assert(pairs.drop_last().drop_last() =~= Seq::empty());
            assert(pairs.drop_last().last() == ("en"@, english_names()));
            assert(pairs.last() == ("ru"@, russian_names()));
            assert(last_wins(pairs.drop_last().drop_last()) == Map::<Seq<char>, Map<Seq<char>, Seq<char>>>::empty());
            assert(last_wins(pairs.drop_last()) == Map::<Seq<char>, Map<Seq<char>, Seq<char>>>::empty().insert(
                "en"@,
                english_names(),
            ));
            assert(tables_map(tables@) == default_names());
        }
        Translations { tables }
    }

    /// The name of `key` in `language`, falling back to English and then to
    /// the key itself.
    pub fn get(&self, language: &str, key: &str) -> (res: String)
        ensures
            res@ == translate(self@, language@, key@),
    {
        if let Some(t) = self.find_table(language) {
            if let Some(e) = find_entry(&self.tables[t].entries, key) {
                return self.tables[t].entries[e].1.clone();
            }
        }
        if let Some(t) = self.find_table("en") {
            if let Some(e) = find_entry(&self.tables[t].entries, key) {
                return self.tables[t].entries[e].1.clone();
            }
        }
        String::from_str(key)
    }

    /// The name of compass point number `direction_index` in `language`.
    pub fn get_wind_direction(&self, language: &str, direction_index: usize) -> (res: String)
        ensures
            res@ == translate(self@, language@, wind_key(direction_index as nat)),
    {
        let mut key = String::from_str("wind_dir_");
        push_decimal(&mut key, direction_index as u64);
        self.get(language, key.as_str())
    }

    /// The language codes that have a table, each once.
    pub fn get_available_languages(&self) -> (res: Vec<String>)
        ensures
            forall|i: int| 0 <= i < res@.len() ==> self@.contains_key(#[trigger] res@[i]@),
            forall|language: Seq<char>|
                self@.contains_key(language) ==> exists|i: int|
                    0 <= i < res@.len() && #[trigger] res@[i]@ == language,
            forall|i: int, j: int| 0 <= i < j < res@.len() ==> res@[i]@ != res@[j]@,
    {
        proof {
            use_type_invariant(self);
        }
        let mut res: Vec<String> = Vec::new();
        let n = self.tables.len();
        let mut i: usize = 0;
        while i < n
            invariant
                n == self.tables@.len(),
                i <= n,
                res@.len() == i,
                forall|k: int| 0 <= k < i ==> #[trigger] res@[k]@ == self.tables@[k].language@,
                forall|a: int, b: int|
                    0 <= a < b < self.tables@.len() ==> self.tables@[a].language@
                        != self.tables@[b].language@,
            decreases n - i,
        {
            res.push(self.tables[i].language.clone());
            i = i + 1;
        }
        proof {
            assert forall|k: int| 0 <= k < res@.len() implies self@.contains_key(
                #[trigger] res@[k]@,
            ) by {
                let pairs = table_pairs(self.tables@);
                lemma_last_wins_domain(pairs, res@[k]@);
                assert(pairs[k].0 == res@[k]@);
            }
            assert forall|language: Seq<char>| self@.contains_key(language) implies exists|k: int|
                0 <= k < res@.len() && #[trigger] res@[k]@ == language by {
                let pairs = table_pairs(self.tables@);
                lemma_last_wins_domain(pairs, language);
                let j = choose|j: int| 0 <= j < pairs.len() && #[trigger] pairs[j].0 == language;
                assert(res@[j]@ == language);
            }
        }
        res
    }
}

/// English and Russian name exactly the same keys.
pub proof fn languages_name_the_same_keys()
    ensures
        english_names().dom() == russian_names().dom(),
{
    lemma_table_keys();
    assert forall|key: Seq<char>| english_names().contains_key(key) == russian_names().contains_key(key) by {
        lemma_last_wins_domain(english_pairs(), key);
        lemma_last_wins_domain(russian_pairs(), key);
        assert forall|j: int| 0 <= j < english_pairs().len() implies #[trigger] english_pairs()[j].0
            == russian_pairs()[j].0 by {
            assert(pair_keys(english_pairs())[j] == pair_keys(russian_pairs())[j]);
        }
        if russian_names().contains_key(key) {
            let j = choose|j: int| 0 <= j < russian_pairs().len() && #[trigger] russian_pairs()[j].0 == key;
            assert(english_pairs()[j].0 == key);
        }
    }
    assert(english_names().dom() =~= russian_names().dom());
}

/// A key that neither table names is shown as the key itself, in every
/// language.
pub proof fn unnamed_key_shown_as_itself(language: Seq<char>, key: Seq<char>)
    requires
        !english_names().contains_key(key),
        !russian_names().contains_key(key),
    ensures
        translate(default_names(), language, key) == key,
{
    reveal_strlit("en");
    reveal_strlit("ru");
    assert("en"@[0] != "ru"@[0]);
    assert(default_names()[fallback_language()] == english_names());
    assert(default_names()["ru"@] == russian_names());
}

/// The lookup key of each of the sixteen compass points, spelled out.
proof fn lemma_wind_key_text(index: nat)
    requires
        index < 16,
    ensures
        wind_key(index) == compass_keys()[index as int],
{
    reveal_strlit("wind_dir_0");
    reveal_strlit("wind_dir_1");
    reveal_strlit("wind_dir_2");
    reveal_strlit("wind_dir_3");
    reveal_strlit("wind_dir_4");
    reveal_strlit("wind_dir_5");
    reveal_strlit("wind_dir_6");
    reveal_strlit("wind_dir_7");
    reveal_strlit("wind_dir_8");
    reveal_strlit("wind_dir_9");
    reveal_strlit("wind_dir_10");
    reveal_strlit("wind_dir_11");
    reveal_strlit("wind_dir_12");
    reveal_strlit("wind_dir_13");
    reveal_strlit("wind_dir_14");
    reveal_strlit("wind_dir_15");
    reveal_strlit("wind_dir_");
    assert(decimal_text(1) == seq!['1']);
    if index >= 10 {
        assert(decimal_text(index) == seq!['1'] + seq![digit_chars_at((index - 10) as nat)]);
    }
    assert(wind_key(index) == "wind_dir_"@ + decimal_text(index));
    if index == 0 { assert(wind_key(index) == "wind_dir_0"@); }
    else if index == 1 { assert(wind_key(index) == "wind_dir_1"@); }
    else if index == 2 { assert(wind_key(index) == "wind_dir_2"@); }
    else if index == 3 { assert(wind_key(index) == "wind_dir_3"@); }
    else if index == 4 { assert(wind_key(index) == "wind_dir_4"@); }
    else if index == 5 { assert(wind_key(index) == "wind_dir_5"@); }
    else if index == 6 { assert(wind_key(index) == "wind_dir_6"@); }
    else if index == 7 { assert(wind_key(index) == "wind_dir_7"@); }
    else if index == 8 { assert(wind_key(index) == "wind_dir_8"@); }
    else if index == 9 { assert(wind_key(index) == "wind_dir_9"@); }
    else if index == 10 { assert(wind_key(index) == "wind_dir_10"@); }
    else if index == 11 { assert(wind_key(index) == "wind_dir_11"@); }
    else if index == 12 { assert(wind_key(index) == "wind_dir_12"@); }
    else if index == 13 { assert(wind_key(index) == "wind_dir_13"@); }
    else if index == 14 { assert(wind_key(index) == "wind_dir_14"@); }
    else { assert(wind_key(index) == "wind_dir_15"@); }
}

/// Compass point `index` is the entry after the twelve labels in each table.
proof fn lemma_compass_lookup(index: nat)
    requires
        index < 16,
    ensures
        english_names().contains_key(wind_key(index)),
        english_names()[wind_key(index)] == english_pairs()[12 + index as int].1,
        russian_names().contains_key(wind_key(index)),
        russian_names()[wind_key(index)] == russian_pairs()[12 + index as int].1,
{
    lemma_wind_key_text(index);
    lemma_table_keys();
    let i: int = 12 + index as int;
    assert(pair_keys(english_pairs())[i] == compass_keys()[index as int]);
    assert(pair_keys(russian_pairs())[i] == compass_keys()[index as int]);
    lemma_last_wins_lookup(english_pairs(), i);
    lemma_last_wins_lookup(russian_pairs(), i);
}

/// Measurement label `i` is the entry at position `i` of each table, under
/// the same key in both.
pub(crate) proof fn lemma_label_lookup(i: int)
    requires
        0 <= i < 12,
    ensures
        english_pairs()[i].0 == russian_pairs()[i].0,
        english_names().contains_key(english_pairs()[i].0),
        english_names()[english_pairs()[i].0] == english_pairs()[i].1,
        russian_names().contains_key(english_pairs()[i].0),
        russian_names()[english_pairs()[i].0] == russian_pairs()[i].1,
{
    lemma_table_keys();
    assert(pair_keys(english_pairs())[i] == pair_keys(russian_pairs())[i]);
    lemma_last_wins_lookup(english_pairs(), i);
    lemma_last_wins_lookup(russian_pairs(), i);
}

/// Each of the sixteen compass points has a name in each table: the Russian
/// one for Russian and the English one for every other language.
pub proof fn every_compass_point_named(index: nat, language: Seq<char>)
    requires
        index < 16,
    ensures
        english_names().contains_key(wind_key(index)),
        russian_names().contains_key(wind_key(index)),
        translate(default_names(), language, wind_key(index)) == if language == "ru"@ {
            russian_names()[wind_key(index)]
        } else {
            english_names()[wind_key(index)]
        },
{
    reveal_strlit("en");
    reveal_strlit("ru");
    assert("en"@[0] != "ru"@[0]);
    assert(default_names()[fallback_language()] == english_names());
    assert(default_names()["ru"@] == russian_names());
    lemma_wind_key_text(index);
    lemma_compass_lookup(index);
}

/// The compass points run clockwise from north in steps of 22.5 degrees:
/// point `index` is named, in English and in Russian, by the sixteen-wind
/// rose in that order.
pub proof fn compass_points_run_clockwise(index: nat)
    requires
        index < 16,
    ensures
        translate(default_names(), "en"@, wind_key(index)) == seq![
            "N"@, "NNE"@, "NE"@, "ENE"@, "E"@, "ESE"@, "SE"@, "SSE"@,
            "S"@, "SSW"@, "SW"@, "WSW"@, "W"@, "WNW"@, "NW"@, "NNW"@,
        ][index as int],
        translate(default_names(), "ru"@, wind_key(index)) == seq![
            "С"@, "ССВ"@, "СВ"@, "ВСВ"@, "В"@, "ВЮВ"@, "ЮВ"@, "ЮЮВ"@,
            "Ю"@, "ЮЮЗ"@, "ЮЗ"@, "ЗЮЗ"@, "З"@, "ЗСЗ"@, "СЗ"@, "ССЗ"@,
        ][index as int],
{
    every_compass_point_named(index, "en"@);
    every_compass_point_named(index, "ru"@);
    lemma_compass_lookup(index);
    reveal_strlit("ru");
    reveal_strlit("en");
    assert("en"@[0] != "ru"@[0]);
}

/// The digit character of value `d`.
spec fn digit_chars_at(d: nat) -> char {
    crate::text::digit_chars()[d as int]
}

/// Whatever block the station returns, the compass point of the decoded
/// reading has a name in every language.
pub proof fn reported_direction_is_named(block: Seq<u8>, previous_raw: u16, max_jump_tenths: i64, language: Seq<char>)
    requires
        block.len() == 32,
    ensures
        decode(block, previous_raw, max_jump_tenths).wind_direction_index < 16,
        translate(
            default_names(),
            language,
            wind_key(decode(block, previous_raw, max_jump_tenths).wind_direction_index as nat),
        ) == if language == "ru"@ {
            russian_names()[wind_key(decode(block, previous_raw, max_jump_tenths).wind_direction_index as nat)]
        } else {
            english_names()[wind_key(decode(block, previous_raw, max_jump_tenths).wind_direction_index as nat)]
        },
{
    every_compass_point_named(decode(block, previous_raw, max_jump_tenths).wind_direction_index as nat, language);
}

} // verus!
