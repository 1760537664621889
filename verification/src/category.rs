//! Classification of an element by its tags.
//!
//! The rules are tried in a fixed order; the first rule whose key the
//! element carries with a value that the rule knows decides the category.

use vstd::prelude::*;
use vstd::string::*;

use crate::tags::{pair_views, same_text, Tags};

verus! {

/// One rule: a tag key, and the category that each known value of it stands
/// for.
#[derive(Clone, Debug)]
pub struct CategoryRule {
    pub key: String,
    pub values: Vec<(String, String)>,
}

/// What a rule says, as plain sequences of characters.
pub struct RuleView {
    pub key: Seq<char>,
    pub values: Seq<(Seq<char>, Seq<char>)>,
}

impl View for CategoryRule {
    type V = RuleView;

    open spec fn view(&self) -> RuleView {
        RuleView { key: self.key@, values: pair_views(self.values@) }
    }
}

/// The rules of a list, in order.
pub open spec fn rules_view(rules: Seq<CategoryRule>) -> Seq<RuleView> {
    rules.map_values(|r: CategoryRule| r@)
}

/// The category and subcategory of a classification, as characters.
pub open spec fn classification_view(found: Option<(String, String)>) -> Option<
    (Seq<char>, Seq<char>),
> {
    match found {
        Some(pair) => Some((pair.0@, pair.1@)),
        None => None,
    }
}

/// The category that the first pair with the given value names.
pub open spec fn lookup_value(values: Seq<(Seq<char>, Seq<char>)>, value: Seq<char>) -> Option<
    Seq<char>,
>
    decreases values.len(),
{
    if values.len() == 0 {
        None
    } else if values[0].0 == value {
        Some(values[0].1)
    } else {
        lookup_value(values.drop_first(), value)
    }
}

/// What one rule makes of a tag set: the category and, as subcategory, the
/// tag's value, where the tags carry the rule's key with a known value.
pub open spec fn rule_match(tags: Map<Seq<char>, Seq<char>>, rule: RuleView) -> Option<
    (Seq<char>, Seq<char>),
> {
    if tags.contains_key(rule.key) {
        match lookup_value(rule.values, tags[rule.key]) {
            Some(category) => Some((category, tags[rule.key])),
            None => None,
        }
    } else {
        None
    }
}

/// The classification of a tag set: what the first matching rule says.
pub open spec fn spec_classify(tags: Map<Seq<char>, Seq<char>>, rules: Seq<RuleView>) -> Option<
    (Seq<char>, Seq<char>),
>
    decreases rules.len(),
{
    if rules.len() == 0 {
        None
    } else {
        match rule_match(tags, rules[0]) {
            Some(found) => Some(found),
            None => spec_classify(tags, rules.drop_first()),
        }
    }
}
/// Amenities: food and drink, entertainment, healthcare, financial
/// services, transport and education.
pub open spec fn amenity_rule() -> RuleView {
    RuleView {
        key: "amenity"@,
        values: seq![
            ("restaurant"@, "food"@),
            ("cafe"@, "food"@),
            ("fast_food"@, "food"@),
            ("bar"@, "food"@),
            ("pub"@, "food"@),
            ("food_court"@, "food"@),
            ("ice_cream"@, "food"@),
            ("biergarten"@, "food"@),
            ("cinema"@, "entertainment"@),
            ("theatre"@, "entertainment"@),
            ("nightclub"@, "entertainment"@),
            ("casino"@, "entertainment"@),
            ("arts_centre"@, "entertainment"@),
            ("community_centre"@, "entertainment"@),
            ("hospital"@, "healthcare"@),
            ("clinic"@, "healthcare"@),
            ("doctors"@, "healthcare"@),
            ("dentist"@, "healthcare"@),
            ("pharmacy"@, "healthcare"@),
            ("veterinary"@, "healthcare"@),
            ("bank"@, "financial"@),
            ("atm"@, "financial"@),
            ("bureau_de_change"@, "financial"@),
            ("fuel"@, "transportation"@),
            ("parking"@, "transportation"@),
            ("car_rental"@, "transportation"@),
            ("bicycle_rental"@, "transportation"@),
            ("bus_station"@, "transportation"@),
            ("taxi"@, "transportation"@),
            ("school"@, "education"@),
            ("university"@, "education"@),
            ("college"@, "education"@),
            ("library"@, "education"@),
            ("kindergarten"@, "education"@),
        ],
    }
}

/// Shops.
pub open spec fn shop_rule() -> RuleView {
    RuleView {
        key: "shop"@,
        values: seq![
            ("supermarket"@, "shopping"@),
            ("convenience"@, "shopping"@),
            ("clothes"@, "shopping"@),
            ("mall"@, "shopping"@),
            ("department_store"@, "shopping"@),
            ("electronics"@, "shopping"@),
            ("furniture"@, "shopping"@),
            ("books"@, "shopping"@),
            ("bakery"@, "shopping"@),
            ("butcher"@, "shopping"@),
            ("florist"@, "shopping"@),
            ("hardware"@, "shopping"@),
        ],
    }
}

/// Tourism: places to stay and places to see.
pub open spec fn tourism_rule() -> RuleView {
    RuleView {
        key: "tourism"@,
        values: seq![
            ("hotel"@, "accommodation"@),
            ("motel"@, "accommodation"@),
            ("hostel"@, "accommodation"@),
            ("guest_house"@, "accommodation"@),
            ("attraction"@, "entertainment"@),
            ("museum"@, "entertainment"@),
            ("gallery"@, "entertainment"@),
            ("viewpoint"@, "entertainment"@),
        ],
    }
}

/// Leisure facilities.
pub open spec fn leisure_rule() -> RuleView {
    RuleView {
        key: "leisure"@,
        values: seq![
            ("park"@, "entertainment"@),
            ("sports_centre"@, "entertainment"@),
            ("playground"@, "entertainment"@),
            ("stadium"@, "entertainment"@),
            ("swimming_pool"@, "entertainment"@),
            ("fitness_centre"@, "entertainment"@),
            ("golf_course"@, "entertainment"@),
        ],
    }
}

/// Offices of educational bodies.
pub open spec fn office_rule() -> RuleView {
    RuleView {
        key: "office"@,
        values: seq![
            ("educational_institution"@, "education"@),
            ("university"@, "education"@),
        ],
    }
}

/// Elements tagged with the `education` key.
pub open spec fn education_rule() -> RuleView {
    RuleView {
        key: "education"@,
        values: seq![
            ("school"@, "education"@),
            ("university"@, "education"@),
            ("college"@, "education"@),
        ],
    }
}

/// Buildings put up for education.
pub open spec fn building_rule() -> RuleView {
    RuleView {
        key: "building"@,
        values: seq![
            ("college"@, "education"@),
            ("university"@, "education"@),
            ("school"@, "education"@),
        ],
    }
}

/// The built-in rules, in the order in which they are tried.
pub open spec fn category_rules() -> Seq<RuleView> {
    seq![
        amenity_rule(),
        shop_rule(),
        tourism_rule(),
        leisure_rule(),
        office_rule(),
        education_rule(),
        building_rule(),
    ]
}

/// The first rule that matches decides: what the rules after it say, and
/// whether they match, has no part in the classification.
pub proof fn lemma_first_match_decides(
    tags: Map<Seq<char>, Seq<char>>,
    rules: Seq<RuleView>,
    i: int,
)
    requires
        0 <= i < rules.len(),
        rule_match(tags, rules[i]) is Some,
        forall|j: int| 0 <= j < i ==> rule_match(tags, #[trigger] rules[j]) is None,
    ensures
        spec_classify(tags, rules) == rule_match(tags, rules[i]),
    decreases i,
{
    if i > 0 {
        assert(rule_match(tags, rules[0]) is None);
        let rest = rules.drop_first();
        assert forall|j: int| 0 <= j < i - 1 implies rule_match(tags, #[trigger] rest[j]) is None by {
            assert(rest[j] == rules[j + 1]);
        }
        lemma_first_match_decides(tags, rest, i - 1);
    }
}

/// A tag set is left unclassified exactly when no rule matches it.
pub proof fn lemma_unclassified(tags: Map<Seq<char>, Seq<char>>, rules: Seq<RuleView>)
    ensures
        spec_classify(tags, rules) is None <==> forall|j: int|
            0 <= j < rules.len() ==> rule_match(tags, #[trigger] rules[j]) is None,
    decreases rules.len(),
{
    if rules.len() > 0 {
        let rest = rules.drop_first();
        lemma_unclassified(tags, rest);
        if spec_classify(tags, rules) is None {
            assert forall|j: int| 0 <= j < rules.len() implies rule_match(
                tags,
                #[trigger] rules[j],
            ) is None by {
                if j > 0 {
                    assert(rest[j - 1] == rules[j]);
                }
            }
        } else if rule_match(tags, rules[0]) is None {
            let j = choose|j: int| 0 <= j < rest.len() && rule_match(tags, #[trigger] rest[j]) is Some;
            assert(rest[j] == rules[j + 1]);
        }
    }
}

/// A category that a list of values gives stands in one of its pairs,
/// beside the value looked up.
pub proof fn lemma_lookup_value_found(values: Seq<(Seq<char>, Seq<char>)>, value: Seq<char>)
    ensures
        lookup_value(values, value) matches Some(category) ==> exists|i: int|
            0 <= i < values.len() && #[trigger] values[i] == (value, category),
    decreases values.len(),
{
    if values.len() > 0 && values[0].0 != value {
        let rest = values.drop_first();
        lemma_lookup_value_found(rest, value);
        if let Some(category) = lookup_value(values, value) {
            let i = choose|i: int| 0 <= i < rest.len() && #[trigger] rest[i] == (value, category);
            assert(values[i + 1] == (value, category));
        }
    }
}

/// A classification comes from a rule: the element carries the rule's key,
/// the subcategory is the value it carries under that key, and the rule
/// pairs that value with the category.
pub proof fn lemma_classification_source(tags: Map<Seq<char>, Seq<char>>, rules: Seq<RuleView>)
    ensures
        spec_classify(tags, rules) matches Some(found) ==> exists|r: int, i: int|
            0 <= r < rules.len() && 0 <= i < rules[r].values.len() && tags.contains_key(
                rules[r].key,
            ) && tags[rules[r].key] == found.1 && #[trigger] rules[r].values[i] == (
                found.1,
                found.0,
            ),
    decreases rules.len(),
{
    if rules.len() > 0 {
        match rule_match(tags, rules[0]) {
            Some(found) => {
                lemma_lookup_value_found(rules[0].values, tags[rules[0].key]);
                let i = choose|i: int|
                    0 <= i < rules[0].values.len() && #[trigger] rules[0].values[i] == (
                        found.1,
                        found.0,
                    );
                assert(rules[0].values[i] == (found.1, found.0));
            },
            None => {
                let rest = rules.drop_first();
                lemma_classification_source(tags, rest);
                if let Some(found) = spec_classify(tags, rules) {
                    let (r, i) = choose|r: int, i: int|
                        0 <= r < rest.len() && 0 <= i < rest[r].values.len() && tags.contains_key(
                            rest[r].key,
                        ) && tags[rest[r].key] == found.1 && #[trigger] rest[r].values[i] == (
                            found.1,
                            found.0,
                        );
                    assert(rest[r] == rules[r + 1]);
                    assert(rules[r + 1].values[i] == (found.1, found.0));
                }
            },
        }
    }
}

/// Whether every pair of every rule names a category, that is, pairs no
/// value with the empty string.
pub open spec fn names_categories(rules: Seq<RuleView>) -> bool {
    forall|r: int, i: int|
        0 <= r < rules.len() && 0 <= i < rules[r].values.len() ==> (
        #[trigger] rules[r].values[i]).1.len() > 0
}

/// Under rules that name their categories, a classification has a
/// category that is not empty.
pub proof fn lemma_category_not_empty(tags: Map<Seq<char>, Seq<char>>, rules: Seq<RuleView>)
    requires
        names_categories(rules),
    ensures
        spec_classify(tags, rules) matches Some(found) ==> found.0.len() > 0,
{
    lemma_classification_source(tags, rules);
}

/// The built-in rules name their categories.
pub proof fn lemma_builtin_rules_name_categories()
    ensures
        names_categories(category_rules()),
{
    reveal_strlit("food");
    reveal_strlit("entertainment");
    reveal_strlit("healthcare");
    reveal_strlit("financial");
    reveal_strlit("transportation");
    reveal_strlit("education");
    reveal_strlit("shopping");
    reveal_strlit("accommodation");
}

/// Under the built-in rules a classification never has an empty category.
pub proof fn lemma_builtin_category_not_empty(tags: Map<Seq<char>, Seq<char>>)
    ensures
        spec_classify(tags, category_rules()) matches Some(found) ==> found.0.len() > 0,
{
    lemma_builtin_rules_name_categories();
    lemma_category_not_empty(tags, category_rules());
}

/// Appends the pair of `value` and `category`.
fn add_value(values: &mut Vec<(String, String)>, value: &str, category: &str)
    ensures
        pair_views(final(values)@) == pair_views(old(values)@).push((value@, category@)),
{
    values.push((String::from_str(value), String::from_str(category)));
}

/// Appends `rule`.
fn add_rule(rules: &mut Vec<CategoryRule>, rule: CategoryRule)
    ensures
        rules_view(final(rules)@) == rules_view(old(rules)@).push(rule@),
{
    rules.push(rule);
}

fn build_amenity_rule() -> (rule: CategoryRule)
    ensures
        rule@ == amenity_rule(),
{
    let mut values: Vec<(String, String)> = Vec::new();
    add_value(&mut values, "restaurant", "food");
    add_value(&mut values, "cafe", "food");
    add_value(&mut values, "fast_food", "food");
    add_value(&mut values, "bar", "food");
    add_value(&mut values, "pub", "food");
    add_value(&mut values, "food_court", "food");
    add_value(&mut values, "ice_cream", "food");
    add_value(&mut values, "biergarten", "food");
    add_value(&mut values, "cinema", "entertainment");
    add_value(&mut values, "theatre", "entertainment");
    add_value(&mut values, "nightclub", "entertainment");
    add_value(&mut values, "casino", "entertainment");
    add_value(&mut values, "arts_centre", "entertainment");
    add_value(&mut values, "community_centre", "entertainment");
    add_value(&mut values, "hospital", "healthcare");
    add_value(&mut values, "clinic", "healthcare");
    add_value(&mut values, "doctors", "healthcare");
    add_value(&mut values, "dentist", "healthcare");
    add_value(&mut values, "pharmacy", "healthcare");
    add_value(&mut values, "veterinary", "healthcare");
    add_value(&mut values, "bank", "financial");
    add_value(&mut values, "atm", "financial");
    add_value(&mut values, "bureau_de_change", "financial");
    add_value(&mut values, "fuel", "transportation");
    add_value(&mut values, "parking", "transportation");
    add_value(&mut values, "car_rental", "transportation");
    add_value(&mut values, "bicycle_rental", "transportation");
    add_value(&mut values, "bus_station", "transportation");
    add_value(&mut values, "taxi", "transportation");
    add_value(&mut values, "school", "education");
    add_value(&mut values, "university", "education");
    add_value(&mut values, "college", "education");
    add_value(&mut values, "library", "education");
    add_value(&mut values, "kindergarten", "education");
    assert(pair_views(values@) =~= amenity_rule().values);
    CategoryRule { key: String::from_str("amenity"), values }
}

fn build_shop_rule() -> (rule: CategoryRule)
    ensures
        rule@ == shop_rule(),
{
    let mut values: Vec<(String, String)> = Vec::new();
    add_value(&mut values, "supermarket", "shopping");
    add_value(&mut values, "convenience", "shopping");
    add_value(&mut values, "clothes", "shopping");
    add_value(&mut values, "mall", "shopping");
    add_value(&mut values, "department_store", "shopping");
    add_value(&mut values, "electronics", "shopping");
    add_value(&mut values, "furniture", "shopping");
    add_value(&mut values, "books", "shopping");
    add_value(&mut values, "bakery", "shopping");
    add_value(&mut values, "butcher", "shopping");
    add_value(&mut values, "florist", "shopping");
    add_value(&mut values, "hardware", "shopping");
    assert(pair_views(values@) =~= shop_rule().values);
    CategoryRule { key: String::from_str("shop"), values }
}

fn build_tourism_rule() -> (rule: CategoryRule)
    ensures
        rule@ == tourism_rule(),
{
    let mut values: Vec<(String, String)> = Vec::new();
    add_value(&mut values, "hotel", "accommodation");
    add_value(&mut values, "motel", "accommodation");
    add_value(&mut values, "hostel", "accommodation");
    add_value(&mut values, "guest_house", "accommodation");
    add_value(&mut values, "attraction", "entertainment");
    add_value(&mut values, "museum", "entertainment");
    add_value(&mut values, "gallery", "entertainment");
    add_value(&mut values, "viewpoint", "entertainment");
    assert(pair_views(values@) =~= tourism_rule().values);
    CategoryRule { key: String::from_str("tourism"), values }
}

fn build_leisure_rule() -> (rule: CategoryRule)
    ensures
        rule@ == leisure_rule(),
{
    let mut values: Vec<(String, String)> = Vec::new();
    add_value(&mut values, "park", "entertainment");
    add_value(&mut values, "sports_centre", "entertainment");
    add_value(&mut values, "playground", "entertainment");
    add_value(&mut values, "stadium", "entertainment");
    add_value(&mut values, "swimming_pool", "entertainment");
    add_value(&mut values, "fitness_centre", "entertainment");
    add_value(&mut values, "golf_course", "entertainment");
    assert(pair_views(values@) =~= leisure_rule().values);
    CategoryRule { key: String::from_str("leisure"), values }
}

fn build_office_rule() -> (rule: CategoryRule)
    ensures
        rule@ == office_rule(),
{
    let mut values: Vec<(String, String)> = Vec::new();
    add_value(&mut values, "educational_institution", "education");
    add_value(&mut values, "university", "education");
    assert(pair_views(values@) =~= office_rule().values);
    CategoryRule { key: String::from_str("office"), values }
}

fn build_education_rule() -> (rule: CategoryRule)
    ensures
        rule@ == education_rule(),
{
    let mut values: Vec<(String, String)> = Vec::new();
    add_value(&mut values, "school", "education");
    add_value(&mut values, "university", "education");
    add_value(&mut values, "college", "education");
    assert(pair_views(values@) =~= education_rule().values);
    CategoryRule { key: String::from_str("education"), values }
}

fn build_building_rule() -> (rule: CategoryRule)
    ensures
        rule@ == building_rule(),
{
    let mut values: Vec<(String, String)> = Vec::new();
    add_value(&mut values, "college", "education");
    add_value(&mut values, "university", "education");
    add_value(&mut values, "school", "education");
    assert(pair_views(values@) =~= building_rule().values);
    CategoryRule { key: String::from_str("building"), values }
}

/// The built-in rules: amenity first, then shop, tourism, leisure, office,
/// education and building.
pub fn get_category_mapping() -> (rules: Vec<CategoryRule>)
    ensures
        rules_view(rules@) == category_rules(),
{
    let mut rules: Vec<CategoryRule> = Vec::new();
    add_rule(&mut rules, build_amenity_rule());
    add_rule(&mut rules, build_shop_rule());
    add_rule(&mut rules, build_tourism_rule());
    add_rule(&mut rules, build_leisure_rule());
    add_rule(&mut rules, build_office_rule());
    add_rule(&mut rules, build_education_rule());
    add_rule(&mut rules, build_building_rule());
    rules
}

/// The category that `values` gives to `value`, if it knows the value.
fn find_category<'a>(values: &'a Vec<(String, String)>, value: &str) -> (category: Option<
    &'a String,
>)
    ensures
        match category {
            Some(c) => lookup_value(pair_views(values@), value@) == Some(c@),
            None => lookup_value(pair_views(values@), value@) is None,
        },
{
    let ghost all = pair_views(values@);
    let mut i: usize = 0;
    assert(all.skip(0) =~= all);
    while i < values.len()
        invariant
            i <= values.len(),
            all == pair_views(values@),
            lookup_value(all, value@) == lookup_value(all.skip(i as int), value@),
        decreases values.len() - i,
    {
        if same_text(values[i].0.as_str(), value) {
            return Some(&values[i].1);
        }
        assert(all.skip(i as int).drop_first() =~= all.skip(i + 1));
        i = i + 1;
    }
    None
}

/// The category and subcategory of an element with the given tags, by the
/// first rule in `rules` that matches; `None` where no rule does.
pub fn classify(tags: &Tags, rules: &Vec<CategoryRule>) -> (found: Option<(String, String)>)
    ensures
        classification_view(found) == spec_classify(tags@, rules_view(rules@)),
{
    let ghost all = rules_view(rules@);
    let mut i: usize = 0;
    assert(all.skip(0) =~= all);
    while i < rules.len()
        invariant
            i <= rules.len(),
            all == rules_view(rules@),
            spec_classify(tags@, all) == spec_classify(tags@, all.skip(i as int)),
        decreases rules.len() - i,
    {
        let rule = &rules[i];
        if let Some(value) = tags.get(rule.key.as_str()) {
            if let Some(category) = find_category(&rule.values, value.as_str()) {
                return Some((category.clone(), value.clone()));
            }
        }
        assert(all.skip(i as int).drop_first() =~= all.skip(i + 1));
        i = i + 1;
    }
    None
}

} // verus!
