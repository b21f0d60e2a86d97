//! Custom-field normalization: keys and labels are trimmed and must not be
//! empty, values are trimmed, a repeated key keeps its last occurrence, and
//! the result is ordered by key.

use vstd::prelude::*;
use vstd::string::*;
use crate::dto::{CustomFieldItemDto, CustomFieldsDto};
use crate::error::AppError;
use crate::order::{
    chars_lt, lemma_chars_lt_irreflexive, lemma_chars_lt_transitive, str_compare, CmpResult,
};
use crate::text::{trim_spec, trim_str};

verus! {

/// A custom field's content, without its key.
pub ghost struct CfData {
    pub label: Seq<char>,
    pub value: Option<Seq<char>>,
}

/// A field item's content as stored.
pub open spec fn cf_data_plain(it: CustomFieldItemDto) -> CfData {
    CfData {
        label: it.label@,
        value: match it.value {
            Some(v) => Some(v@),
            None => None,
        },
    }
}

/// A field item's content once trimmed.
pub open spec fn cf_data_norm(it: CustomFieldItemDto) -> CfData {
    CfData {
        label: trim_spec(it.label@),
        value: match it.value {
            Some(v) => Some(trim_spec(v@)),
            None => None,
        },
    }
}

/// Contents of a field sequence keyed by stored key; a later item with the
/// same key shadows an earlier one.
pub open spec fn cf_map_plain(items: Seq<CustomFieldItemDto>) -> Map<Seq<char>, CfData>
    decreases items.len(),
{
    if items.len() == 0 {
        Map::empty()
    } else {
        cf_map_plain(items.drop_last()).insert(
            items.last().key@,
            cf_data_plain(items.last()),
        )
    }
}

/// Contents of a field sequence keyed by trimmed key, with trimmed data; a
/// later item with the same trimmed key shadows an earlier one.
pub open spec fn cf_norm_map(items: Seq<CustomFieldItemDto>) -> Map<Seq<char>, CfData>
    decreases items.len(),
{
    if items.len() == 0 {
        Map::empty()
    } else {
        cf_norm_map(items.drop_last()).insert(
            trim_spec(items.last().key@),
            cf_data_norm(items.last()),
        )
    }
}

/// Whether one input item is acceptable: key and label keep something after
/// trimming.
pub open spec fn cf_item_ok(it: CustomFieldItemDto) -> bool {
    trim_spec(it.key@).len() > 0 && trim_spec(it.label@).len() > 0
}

/// Whether the items are strictly ordered by key.
pub open spec fn cf_keys_sorted(items: Seq<CustomFieldItemDto>) -> bool {
    forall|p: int, q: int|
        0 <= p < q < items.len() ==> chars_lt(
            (#[trigger] items[p]).key@,
            (#[trigger] items[q]).key@,
        )
}

proof fn lemma_cf_insert(s: Seq<CustomFieldItemDto>, j: int, e: CustomFieldItemDto)
    requires
        0 <= j <= s.len(),
        forall|i: int| 0 <= i < s.len() ==> (#[trigger] s[i]).key@ != e.key@,
    ensures
        cf_map_plain(s.insert(j, e)) == cf_map_plain(s).insert(e.key@, cf_data_plain(e)),
    decreases s.len(),
{
    let u = s.insert(j, e);
    if j == s.len() {
        assert(u.drop_last() =~= s);
        assert(u.last() == e);
    } else {
        assert(u.drop_last() =~= s.drop_last().insert(j, e));
        assert(u.last() == s.last());
        assert(forall|i: int|
            0 <= i < s.len() - 1 ==> (#[trigger] s.drop_last()[i]).key@ != e.key@);
        lemma_cf_insert(s.drop_last(), j, e);
        assert(s[s.len() - 1].key@ != e.key@);
        assert(cf_map_plain(u) =~= cf_map_plain(s).insert(e.key@, cf_data_plain(e)));
    }
}

proof fn lemma_cf_update(s: Seq<CustomFieldItemDto>, j: int, e: CustomFieldItemDto)
    requires
        0 <= j < s.len(),
        forall|p: int, q: int|
            0 <= p < q < s.len() ==> (#[trigger] s[p]).key@ != (#[trigger] s[q]).key@,
        e.key@ == s[j].key@,
    ensures
        cf_map_plain(s.update(j, e)) == cf_map_plain(s).insert(e.key@, cf_data_plain(e)),
    decreases s.len(),
{
    let u = s.update(j, e);
    if j == s.len() - 1 {
        assert(u.drop_last() =~= s.drop_last());
        assert(u.last() == e);
        assert(cf_map_plain(u) =~= cf_map_plain(s).insert(e.key@, cf_data_plain(e)));
    } else {
        assert(forall|p: int, q: int|
            0 <= p < q < s.len() - 1 ==> (#[trigger] s.drop_last()[p]).key@ != (
            #[trigger] s.drop_last()[q]).key@);
        assert(s.drop_last()[j] == s[j]);
        lemma_cf_update(s.drop_last(), j, e);
        assert(u.drop_last() =~= s.drop_last().update(j, e));
        assert(u.last() == s.last());
        assert(e.key@ != s.last().key@) by {
            assert(s[j].key@ != s[s.len() - 1].key@);
        }
        assert(cf_map_plain(u) =~= cf_map_plain(s).insert(e.key@, cf_data_plain(e)));
    }
}

proof fn lemma_sorted_keys_unique(s: Seq<CustomFieldItemDto>)
    requires
        cf_keys_sorted(s),
    ensures
        forall|p: int, q: int|
            0 <= p < q < s.len() ==> (#[trigger] s[p]).key@ != (#[trigger] s[q]).key@,
{
    assert forall|p: int, q: int| 0 <= p < q < s.len() implies (#[trigger] s[p]).key@ != (
    #[trigger] s[q]).key@ by {
        if s[p].key@ == s[q].key@ {
            lemma_chars_lt_irreflexive(s[p].key@);
        }
    }
}

/// Trim every key, label and value, reject an item whose key or label trims
/// to nothing, keep only the last occurrence of each key, and return the
/// fields ordered by key.
pub fn normalize_custom_fields(input: CustomFieldsDto) -> (r: Result<CustomFieldsDto, AppError>)
    ensures
        match r {
            Ok(v) => {
                &&& forall|i: int|
                    0 <= i < input.fields@.len() ==> cf_item_ok(#[trigger] input.fields@[i])
                &&& cf_keys_sorted(v.fields@)
                &&& cf_map_plain(v.fields@) == cf_norm_map(input.fields@)
            },
            Err(e) => {
                &&& e is Validation
                &&& exists|i: int|
                    0 <= i < input.fields@.len() && !cf_item_ok(#[trigger] input.fields@[i])
            },
        },
{
    let ghost src = input.fields@;
    let mut out: Vec<CustomFieldItemDto> = Vec::new();
    let mut i: usize = 0;
    while i < input.fields.len()
        invariant
            src == input.fields@,
            i <= src.len(),
            forall|j: int| 0 <= j < i ==> cf_item_ok(#[trigger] src[j]),
            cf_keys_sorted(out@),
            cf_map_plain(out@) == cf_norm_map(src.subrange(0, i as int)),
        decreases src.len() - i,
    {
        let it = &input.fields[i];
        let key = trim_str(it.key.as_str());
        if key.as_str().unicode_len() == 0 {
            proof {
                assert(!cf_item_ok(src[i as int]));
            }
            return Err(AppError::Validation("customFields.key must not be empty".to_owned()));
        }
        let label = trim_str(it.label.as_str());
        if label.as_str().unicode_len() == 0 {
            proof {
                assert(!cf_item_ok(src[i as int]));
            }
            return Err(
                AppError::Validation("customFields.label must not be empty".to_owned()),
            );
        }
        let value: Option<String> = match &it.value {
            Some(v) => Some(trim_str(v.as_str())),
            None => None,
        };
        let item = CustomFieldItemDto { key, label, value };
        let ghost x = item.key@;
        proof {
            assert(x == trim_spec(src[i as int].key@));
            assert(cf_data_plain(item) == cf_data_norm(src[i as int]));
        }
        let mut j: usize = 0;
        let mut eq_found = false;
        let mut gt_found = false;
        while j < out.len() && !eq_found && !gt_found
            invariant
                x == item.key@,
                j <= out@.len(),
                cf_keys_sorted(out@),
                forall|k: int| 0 <= k < j ==> chars_lt((#[trigger] out@[k]).key@, x),
                eq_found ==> j < out@.len() && out@[j as int].key@ == x,
                gt_found ==> j < out@.len() && chars_lt(x, out@[j as int].key@),
                !(eq_found && gt_found),
            decreases out@.len() - j + if !eq_found && !gt_found {
                1int
            } else {
                0int
            },
        {
            match str_compare(out[j].key.as_str(), item.key.as_str()) {
                CmpResult::Less => {
                    j = j + 1;
                },
                CmpResult::Equal => {
                    eq_found = true;
                },
                CmpResult::Greater => {
                    gt_found = true;
                },
            }
        }
        let ghost before = out@;
        proof {
            let pref = src.subrange(0, i + 1);
            assert(pref.drop_last() =~= src.subrange(0, i as int));
            assert(pref.last() == src[i as int]);
        }
        if eq_found {
            proof {
                lemma_sorted_keys_unique(out@);
                lemma_cf_update(out@, j as int, item);
            }
            out.set(j, item);
            proof {
                assert forall|p: int, q: int| 0 <= p < q < out@.len() implies chars_lt(
                    (#[trigger] out@[p]).key@,
                    (#[trigger] out@[q]).key@,
                ) by {
                    assert(out@[p].key@ == before[p].key@);
                    assert(out@[q].key@ == before[q].key@);
                }
            }
        } else if gt_found {
            proof {
                assert forall|k: int| 0 <= k < before.len() implies (
                #[trigger] before[k]).key@ != x by {
                    if k < j {
                        lemma_chars_lt_irreflexive(x);
                        if before[k].key@ == x {
                            assert(chars_lt(x, x));
                        }
                    } else if k == j {
                        lemma_chars_lt_irreflexive(x);
                        if before[k].key@ == x {
                            assert(chars_lt(x, x));
                        }
                    } else {
                        lemma_chars_lt_transitive(x, before[j as int].key@, before[k].key@);
                        lemma_chars_lt_irreflexive(x);
                        if before[k].key@ == x {
                            assert(chars_lt(x, x));
                        }
                    }
                }
                lemma_cf_insert(before, j as int, item);
            }
            out.insert(j, item);
            proof {
                assert forall|p: int, q: int| 0 <= p < q < out@.len() implies chars_lt(
                    (#[trigger] out@[p]).key@,
                    (#[trigger] out@[q]).key@,
                ) by {
                    let jj = j as int;
                    if q < jj {
                        assert(out@[p] == before[p] && out@[q] == before[q]);
                    } else if p < jj && q == jj {
                        assert(out@[p] == before[p] && out@[q] == item);
                    } else if p < jj && q > jj {
                        assert(out@[p] == before[p] && out@[q] == before[q - 1]);
                        if q - 1 == jj {
                        } else {
                        }
                        if p < q - 1 {
                        } else {
                            assert(p == q - 1);
                        }
                    } else if p == jj {
                        assert(out@[p] == item && out@[q] == before[q - 1]);
                        if q - 1 == jj {
                            assert(chars_lt(x, before[jj].key@));
                        } else {
                            lemma_chars_lt_transitive(
                                x,
                                before[jj].key@,
                                before[q - 1].key@,
                            );
                        }
                    } else {
                        assert(out@[p] == before[p - 1] && out@[q] == before[q - 1]);
                    }
                }
            }
        } else {
            proof {
                assert(j == out@.len());
                assert forall|k: int| 0 <= k < before.len() implies (
                #[trigger] before[k]).key@ != x by {
                    lemma_chars_lt_irreflexive(x);
                    if before[k].key@ == x {
                        assert(chars_lt(x, x));
                    }
                }
            }
            out.push(item);
            proof {
                assert(out@.drop_last() =~= before);
                assert forall|p: int, q: int| 0 <= p < q < out@.len() implies chars_lt(
                    (#[trigger] out@[p]).key@,
                    (#[trigger] out@[q]).key@,
                ) by {
                    if q < out@.len() - 1 {
                        assert(out@[p] == before[p] && out@[q] == before[q]);
                    } else {
                        assert(out@[p] == before[p] && out@[q] == item);
                    }
                }
            }
        }
        i = i + 1;
    }
    proof {
        assert(src.subrange(0, src.len() as int) =~= src);
    }
    Ok(CustomFieldsDto { fields: out })
}

} // verus!
