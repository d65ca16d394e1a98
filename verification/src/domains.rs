//! Authorized domains: which lists are well formed, what a granted domain covers, and
//! which lists of a resource a registrar may accept.
//!
//! A domain is a dotted name. A granted name covers itself and every name below it, and
//! the list `["*"]` covers everything.

use crate::error;
use crate::text;
use vstd::prelude::*;

verus! {

/// A name that may stand in a list of domains.
pub open spec fn well_formed_domain(domain: Seq<char>) -> bool {
    &&& !text::blank(domain)
    &&& text::trimmed(domain)
    &&& !text::occurs_in(".."@, domain)
    &&& domain.first() != '.'
    &&& domain.last() != '.'
}

/// A list of domains that may be granted or claimed: the wildcard alone, or well-formed
/// names in strictly increasing order.
pub open spec fn well_formed_domains(domains: Seq<Seq<char>>) -> bool {
    if domains.contains("*"@) {
        domains.len() == 1
    } else {
        &&& forall|i: int| 0 <= i < domains.len() ==> well_formed_domain(#[trigger] domains[i])
        &&& forall|i: int, j: int|
            0 <= i < j < domains.len() ==> text::text_before(#[trigger] domains[i], #[trigger] domains[j])
    }
}

/// A granted name covers itself and the names below it.
pub open spec fn covers(granted: Seq<char>, requested: Seq<char>) -> bool {
    ||| granted == requested
    ||| {
        &&& text::begins_with(requested, granted)
        &&& granted.len() < requested.len()
        &&& requested[granted.len() as int] == '.'
    }
}

/// Some granted name covers the requested one.
pub open spec fn covered_by(granted: Seq<Seq<char>>, requested: Seq<char>) -> bool {
    exists|j: int| 0 <= j < granted.len() && covers(#[trigger] granted[j], requested)
}

/// The granted names cover every requested one. The wildcard covers all of them.
pub open spec fn domains_cover(granted: Seq<Seq<char>>, requested: Seq<Seq<char>>) -> bool {
    ||| granted.contains("*"@)
    ||| forall|i: int| 0 <= i < requested.len() ==> covered_by(granted, #[trigger] requested[i])
}

/// What a registrar with the second list says of a resource with the first.
pub open spec fn domain_verdict(
    resource: Seq<Seq<char>>,
    registrar: Seq<Seq<char>>,
) -> Result<(), Seq<char>> {
    if resource.len() == 0 {
        Err("resource_domains_required"@)
    } else if !well_formed_domains(resource) || !well_formed_domains(registrar) {
        Err("invalid_authorized_domains"@)
    } else if !domains_cover(registrar, resource) {
        Err("unauthorized_domains"@)
    } else {
        Ok(())
    }
}

/// Whether a list holds the wildcard.
fn holds_wildcard(domains: &[String]) -> (found: bool)
    ensures
        found == text::texts(domains@).contains("*"@),
{
    let mut i: usize = 0;
    while i < domains.len()
        invariant
            i <= domains@.len(),
            forall|j: int| 0 <= j < i ==> (#[trigger] domains@[j])@ != "*"@,
        decreases domains@.len() - i,
    {
        if text::same_text(domains[i].as_str(), "*") {
            assert(text::texts(domains@)[i as int] == "*"@);
            return true;
        }
        i = i + 1;
    }
    assert forall|j: int| 0 <= j < text::texts(domains@).len() implies text::texts(domains@)[j] != "*"@ by {
        assert(text::texts(domains@)[j] == domains@[j]@);
    }
    false
}

/// Whether a name may stand in a list of domains.
fn check_domain(domain: &str) -> (ok: bool)
    ensures
        ok == well_formed_domain(domain@),
{
    if text::is_blank(domain) || !text::is_trimmed(domain) || text::occurs("..", domain) {
        return false;
    }
    let chars = text::characters(domain);
    if chars.len() == 0 {
        return false;
    }
    chars[0] != '.' && chars[chars.len() - 1] != '.'
}

/// Checks a list of domains.
pub fn validate_authorized_domain_list(domains: &[String]) -> (result: Result<(), String>)
    ensures
        error::complaint(result) == (if well_formed_domains(text::texts(domains@)) {
            Ok(())
        } else {
            Err("invalid_authorized_domains"@)
        }),
{
    let ghost names = text::texts(domains@);
    if holds_wildcard(domains) {
        return if domains.len() == 1 {
            Ok(())
        } else {
            Err("invalid_authorized_domains".to_owned())
        };
    }
    let mut i: usize = 0;
    while i < domains.len()
        invariant
            i <= domains@.len(),
            names == text::texts(domains@),
            !names.contains("*"@),
            forall|j: int| 0 <= j < i ==> well_formed_domain(#[trigger] names[j]),
        decreases domains@.len() - i,
    {
        if !check_domain(domains[i].as_str()) {
            assert(!well_formed_domain(names[i as int]));
            return Err("invalid_authorized_domains".to_owned());
        }
        i = i + 1;
    }
    let mut k: usize = 1;
    while k < domains.len()
        invariant
            1 <= k,
            names == text::texts(domains@),
            !names.contains("*"@),
            forall|i: int, j: int|
                0 <= i < j < k && j < names.len() ==> text::text_before(
                    #[trigger] names[i],
                    #[trigger] names[j],
                ),
        decreases domains@.len() - k,
    {
        if !text::comes_before(domains[k - 1].as_str(), domains[k].as_str()) {
            assert(!text::text_before(names[k - 1], names[k as int]));
            return Err("invalid_authorized_domains".to_owned());
        }
        proof {
            assert forall|i: int, j: int| 0 <= i < j < k + 1 && j < names.len() implies text::text_before(
                #[trigger] names[i],
                #[trigger] names[j],
            ) by {
                if j == k && i < k - 1 {
                    text::text_before_transitive(names[i], names[k - 1], names[k as int]);
                }
            }
        }
        k = k + 1;
    }
    Ok(())
}

/// Whether a granted name covers a requested one.
pub fn authorized_domain_covers(granted: &str, requested: &str) -> (found: bool)
    ensures
        found == covers(granted@, requested@),
{
    if text::same_text(granted, requested) {
        return true;
    }
    match text::after_prefix(requested, granted) {
        Some(rest) => {
            let chars = text::characters(rest.as_str());
            if chars.len() == 0 {
                assert(requested@.len() == granted@.len());
                assert(requested@.take(granted@.len() as int) == requested@);
                return false;
            }
            assert(requested@[granted@.len() as int] == rest@[0]);
            chars[0] == '.'
        },
        None => false,
    }
}

/// Whether the granted names cover every requested one.
pub fn authorized_domains_cover(granted: &[String], requested: &[String]) -> (found: bool)
    ensures
        found == domains_cover(text::texts(granted@), text::texts(requested@)),
{
    if requested.len() == 0 {
        return true;
    }
    if holds_wildcard(granted) {
        return true;
    }
    let ghost grants = text::texts(granted@);
    let ghost wants = text::texts(requested@);
    let mut i: usize = 0;
    while i < requested.len()
        invariant
            i <= requested@.len(),
            grants == text::texts(granted@),
            wants == text::texts(requested@),
            !grants.contains("*"@),
            forall|k: int| 0 <= k < i ==> covered_by(grants, #[trigger] wants[k]),
        decreases requested@.len() - i,
    {
        let mut found = false;
        let mut j: usize = 0;
        while j < granted.len() && !found
            invariant
                i < requested@.len(),
                j <= granted@.len(),
                grants == text::texts(granted@),
                wants == text::texts(requested@),
                found ==> covered_by(grants, wants[i as int]),
                !found ==> forall|k: int|
                    0 <= k < j ==> !covers(#[trigger] grants[k], wants[i as int]),
            decreases granted@.len() - j,
        {
            if authorized_domain_covers(granted[j].as_str(), requested[i].as_str()) {
                assert(covers(grants[j as int], wants[i as int]));
                found = true;
            }
            j = j + 1;
        }
        if !found {
            assert(!covered_by(grants, wants[i as int]));
            return false;
        }
        i = i + 1;
    }
    true
}

/// Checks the domains of a resource against those granted to the registrar.
pub fn validate_resource_authorized_domains(
    resource_domains: &[String],
    registrar_domains: &[String],
) -> (result: Result<(), String>)
    ensures
        error::complaint(result) == domain_verdict(text::texts(resource_domains@), text::texts(registrar_domains@)),
{
    if resource_domains.len() == 0 {
        return Err("resource_domains_required".to_owned());
    }
    match validate_authorized_domain_list(resource_domains) {
        Ok(()) => {},
        Err(message) => {
            return Err(message);
        },
    }
    match validate_authorized_domain_list(registrar_domains) {
        Ok(()) => {},
        Err(message) => {
            return Err(message);
        },
    }
    if !authorized_domains_cover(registrar_domains, resource_domains) {
        return Err("unauthorized_domains".to_owned());
    }
    Ok(())
}

/// Every name covers itself.
pub proof fn law_coverage_is_reflexive(domain: Seq<char>)
    ensures
        covers(domain, domain),
{
}

/// A name covers whatever is covered by a name that it covers.
pub proof fn law_coverage_is_transitive(upper: Seq<char>, middle: Seq<char>, lower: Seq<char>)
    requires
        covers(upper, middle),
        covers(middle, lower),
    ensures
        covers(upper, lower),
{
    if upper != middle && middle != lower {
        assert(lower.take(upper.len() as int) == lower.take(middle.len() as int).take(
            upper.len() as int,
        ));
        assert(lower[upper.len() as int] == lower.take(middle.len() as int)[upper.len() as int]);
    }
}

/// Only the wildcard itself covers the wildcard.
pub proof fn law_wildcard_is_covered_by_itself_alone(granted: Seq<char>)
    ensures
        covers(granted, "*"@) <==> granted == "*"@,
{
    reveal_strlit("*");
    if covers(granted, "*"@) && granted != "*"@ {
        assert("*"@[granted.len() as int] == '*');
    }
}

/// A list covers whatever is covered by a list that it covers.
pub proof fn law_list_coverage_is_transitive(
    upper: Seq<Seq<char>>,
    middle: Seq<Seq<char>>,
    lower: Seq<Seq<char>>,
)
    requires
        domains_cover(upper, middle),
        domains_cover(middle, lower),
    ensures
        domains_cover(upper, lower),
{
    if !upper.contains("*"@) {
        if middle.contains("*"@) {
            let i = choose|i: int| 0 <= i < middle.len() && middle[i] == "*"@;
            assert(covered_by(upper, middle[i]));
            let j = choose|j: int| 0 <= j < upper.len() && covers(#[trigger] upper[j], middle[i]);
            law_wildcard_is_covered_by_itself_alone(upper[j]);
            assert(upper.contains("*"@));
        }
        assert forall|i: int| 0 <= i < lower.len() implies covered_by(
            upper,
            #[trigger] lower[i],
        ) by {
            assert(covered_by(middle, lower[i]));
            let j = choose|j: int| 0 <= j < middle.len() && covers(#[trigger] middle[j], lower[i]);
            assert(covered_by(upper, middle[j]));
            let k = choose|k: int| 0 <= k < upper.len() && covers(#[trigger] upper[k], middle[j]);
            law_coverage_is_transitive(upper[k], middle[j], lower[i]);
        }
    }
}

/// No name stands twice in a well-formed list.
pub proof fn law_well_formed_lists_hold_no_name_twice(domains: Seq<Seq<char>>)
    requires
        well_formed_domains(domains),
    ensures
        domains.no_duplicates(),
{
    assert forall|i: int, j: int|
        0 <= i < domains.len() && 0 <= j < domains.len() && i != j implies domains[i]
        != domains[j] by {
        if i < j {
            text::text_before_irreflexive(domains[i]);
        } else {
            text::text_before_irreflexive(domains[j]);
        }
    }
}

/// An accepted resource claims no domain that the registrar was not granted.
pub proof fn law_accepted_domains_are_granted(
    resource: Seq<Seq<char>>,
    registrar: Seq<Seq<char>>,
    i: int,
)
    requires
        domain_verdict(resource, registrar) is Ok,
        0 <= i < resource.len(),
    ensures
        registrar == seq!["*"@] || covered_by(registrar, resource[i]),
{
    if registrar.contains("*"@) {
        let k = choose|k: int| 0 <= k < registrar.len() && registrar[k] == "*"@;
        assert(registrar[0] == "*"@);
        assert(registrar == seq!["*"@]);
    }
}

/// A registrar with the wildcard accepts every well-formed list that is not empty.
pub proof fn law_wildcard_registrar_accepts_every_list(resource: Seq<Seq<char>>)
    requires
        resource.len() > 0,
        well_formed_domains(resource),
    ensures
        domain_verdict(resource, seq!["*"@]) is Ok,
{
    assert(seq!["*"@][0] == "*"@);
    assert(seq!["*"@].contains("*"@));
}

/// A registrar without the wildcard never accepts a resource that claims it.
pub proof fn law_wildcard_is_not_accepted_without_the_wildcard(
    resource: Seq<Seq<char>>,
    registrar: Seq<Seq<char>>,
)
    requires
        resource.contains("*"@),
        !registrar.contains("*"@),
    ensures
        domain_verdict(resource, registrar) is Err,
{
    let i = choose|i: int| 0 <= i < resource.len() && resource[i] == "*"@;
    if covered_by(registrar, resource[i]) {
        let j = choose|j: int|
            0 <= j < registrar.len() && covers(#[trigger] registrar[j], resource[i]);
        law_wildcard_is_covered_by_itself_alone(registrar[j]);
        assert(registrar.contains("*"@));
    }
}

/// What a registrar accepts, a registrar whose well-formed grants cover the first one's
/// accepts too.
pub proof fn law_wider_grants_accept_no_less(
    resource: Seq<Seq<char>>,
    narrow: Seq<Seq<char>>,
    wide: Seq<Seq<char>>,
)
    requires
        domain_verdict(resource, narrow) is Ok,
        well_formed_domains(wide),
        domains_cover(wide, narrow),
    ensures
        domain_verdict(resource, wide) is Ok,
{
    law_list_coverage_is_transitive(wide, narrow, resource);
}

/// Coverage goes down and nowhere else: a granted name covers itself, and the names that go on
/// behind it with a dot.
pub proof fn law_coverage_goes_down(granted: Seq<char>, requested: Seq<char>)
    ensures
        covers(granted, requested) <==> requested == granted || exists|rest: Seq<char>|
            requested == #[trigger] (granted + seq!['.'] + rest),
{
    if covers(granted, requested) && granted != requested {
        let n = granted.len() as int;
        let rest = requested.skip(n + 1);
        assert(requested.take(n) == granted);
        assert(requested == granted + seq!['.'] + rest);
    }
    if exists|rest: Seq<char>| requested == #[trigger] (granted + seq!['.'] + rest) {
        let rest = choose|rest: Seq<char>| requested == #[trigger] (granted + seq!['.'] + rest);
        let n = granted.len() as int;
        assert((granted + seq!['.'] + rest).take(n) == granted);
        assert((granted + seq!['.'] + rest)[n] == '.');
    }
}

/// A name covers no shorter one, and no other one of its length, so that of two different names
/// one at most covers the other.
pub proof fn law_nothing_shorter_is_covered(granted: Seq<char>, requested: Seq<char>)
    requires
        covers(granted, requested),
        granted != requested,
    ensures
        granted.len() < requested.len(),
        !covers(requested, granted),
{
    law_coverage_goes_down(granted, requested);
    law_coverage_goes_down(requested, granted);
}

/// Names that differ in a character at which both go on do not cover each other.
pub proof fn law_names_that_part_do_not_cover_each_other(
    left: Seq<char>,
    right: Seq<char>,
    at: int,
)
    requires
        0 <= at < left.len(),
        at < right.len(),
        left[at] != right[at],
    ensures
        !covers(left, right),
        !covers(right, left),
{
    if covers(left, right) {
        assert(right.take(left.len() as int)[at] == right[at]);
    }
    if covers(right, left) {
        assert(left.take(right.len() as int)[at] == left[at]);
    }
}

/// The name is the other one, or goes on behind it with a dot.
pub open spec fn goes_on(name: Seq<char>, other: Seq<char>) -> bool {
    name == other || exists|rest: Seq<char>| name == #[trigger] (other + seq!['.'] + rest)
}

/// The name is one of the others, or goes on behind one of them with a dot.
pub open spec fn goes_on_from_some(name: Seq<char>, others: Seq<Seq<char>>) -> bool {
    exists|j: int| 0 <= j < others.len() && goes_on(name, #[trigger] others[j])
}

/// Lists without the wildcard cover name by name: each requested one is granted, or goes on with
/// a dot behind a granted one.
pub proof fn law_lists_cover_name_by_name(granted: Seq<Seq<char>>, requested: Seq<Seq<char>>)
    requires
        !granted.contains("*"@),
    ensures
        domains_cover(granted, requested) <==> (forall|i: int|
            0 <= i < requested.len() ==> goes_on_from_some(#[trigger] requested[i], granted)),
{
    assert forall|i: int| 0 <= i < requested.len() implies (covered_by(
        granted,
        #[trigger] requested[i],
    ) <==> goes_on_from_some(requested[i], granted)) by {
        let name = requested[i];
        if covered_by(granted, name) {
            let j = choose|j: int| 0 <= j < granted.len() && covers(#[trigger] granted[j], name);
            law_coverage_goes_down(granted[j], name);
            assert(goes_on(name, granted[j]));
        }
        if goes_on_from_some(name, granted) {
            let j = choose|j: int| 0 <= j < granted.len() && goes_on(name, #[trigger] granted[j]);
            law_coverage_goes_down(granted[j], name);
            assert(covers(granted[j], name));
        }
    }
}

/// A well-formed name is made of segments: it is not empty, holds no two dots in a row, and has
/// neither a dot nor a space at its ends.
pub proof fn law_well_formed_names_are_made_of_segments(domain: Seq<char>)
    ensures
        well_formed_domain(domain) <==> {
            &&& domain.len() > 0
            &&& domain[0] != '.' && domain[domain.len() - 1] != '.'
            &&& !text::is_space(domain[0]) && !text::is_space(domain[domain.len() - 1])
            &&& forall|i: int|
                0 <= i < domain.len() - 1 ==> !(#[trigger] domain[i] == '.' && domain[i + 1] == '.')
        },
{
    reveal_strlit("..");
    let dots = ".."@;
    if domain.len() > 0 && !text::is_space(domain[0]) {
        assert(!text::blank(domain));
    }
    if exists|i: int| 0 <= i < domain.len() - 1 && #[trigger] domain[i] == '.' && domain[i + 1] == '.' {
        let i = choose|i: int|
            0 <= i < domain.len() - 1 && #[trigger] domain[i] == '.' && domain[i + 1] == '.';
        assert(domain.subrange(i, i + dots.len()) == dots);
        assert(text::occurs_in(dots, domain));
    }
    if text::occurs_in(dots, domain) {
        let i = choose|i: int|
            0 <= i <= domain.len() - dots.len() && #[trigger] domain.subrange(i, i + dots.len())
                == dots;
        assert(domain.subrange(i, i + dots.len())[0] == domain[i]);
        assert(domain.subrange(i, i + dots.len())[1] == domain[i + 1]);
        assert(domain[i] == '.' && domain[i + 1] == '.');
    }
}

/// Well-formed names joined by a dot are one, which the first of them covers.
pub proof fn law_names_can_be_joined(upper: Seq<char>, lower: Seq<char>)
    requires
        well_formed_domain(upper),
        well_formed_domain(lower),
    ensures
        well_formed_domain(upper + seq!['.'] + lower),
        covers(upper, upper + seq!['.'] + lower),
{
    let joined = upper + seq!['.'] + lower;
    law_well_formed_names_are_made_of_segments(upper);
    law_well_formed_names_are_made_of_segments(lower);
    law_well_formed_names_are_made_of_segments(joined);
    law_coverage_goes_down(upper, joined);
    let n = upper.len() as int;
    assert forall|i: int| 0 <= i < joined.len() - 1 implies !(#[trigger] joined[i] == '.' && joined[i
        + 1] == '.') by {
        if i < n - 1 {
            assert(joined[i] == upper[i] && joined[i + 1] == upper[i + 1]);
        } else if i == n - 1 {
            assert(joined[i] == upper[n - 1]);
        } else if i == n {
            assert(joined[i + 1] == lower[0]);
        } else {
            assert(joined[i] == lower[i - n - 1] && joined[i + 1] == lower[i - n]);
        }
    }
}

/// A list is well formed if it is the wildcard alone, or if its names are well formed and each
/// comes before the next.
pub proof fn law_well_formed_lists_are_sorted(domains: Seq<Seq<char>>)
    ensures
        domains.contains("*"@) ==> (well_formed_domains(domains) <==> domains == seq!["*"@]),
        !domains.contains("*"@) ==> (well_formed_domains(domains) <==> {
            &&& forall|i: int| 0 <= i < domains.len() ==> well_formed_domain(#[trigger] domains[i])
            &&& forall|i: int, j: int|
                0 <= i < domains.len() && 0 <= j < domains.len() ==> (i < j <==> text::text_before(
                    #[trigger] domains[i],
                    #[trigger] domains[j],
                ))
        }),
{
    if domains.contains("*"@) {
        let k = choose|k: int| 0 <= k < domains.len() && domains[k] == "*"@;
        if domains.len() == 1 {
            assert(domains =~= seq!["*"@]);
        }
    } else if well_formed_domains(domains) {
        assert forall|i: int, j: int| 0 <= i < domains.len() && 0 <= j < domains.len() implies (i < j
            <==> text::text_before(#[trigger] domains[i], #[trigger] domains[j])) by {
            if i == j {
                text::text_before_irreflexive(domains[i]);
            } else if j < i && text::text_before(domains[i], domains[j]) {
                text::text_before_transitive(domains[i], domains[j], domains[i]);
                text::text_before_irreflexive(domains[i]);
            }
        }
    }
}

/// Each reason for refusing domains has its own words, and one reason goes before another: a
/// resource without domains, lists that are not well formed, and domains that were not granted.
pub proof fn law_refused_domains_are_told_why(resource: Seq<Seq<char>>, registrar: Seq<Seq<char>>)
    ensures
        resource.len() == 0 <==> domain_verdict(resource, registrar) == Err::<(), Seq<char>>(
            "resource_domains_required"@,
        ),
        resource.len() > 0 && !(well_formed_domains(resource) && well_formed_domains(registrar))
            <==> domain_verdict(resource, registrar) == Err::<(), Seq<char>>(
            "invalid_authorized_domains"@,
        ),
        resource.len() > 0 && well_formed_domains(resource) && well_formed_domains(registrar)
            && !domains_cover(registrar, resource) <==> domain_verdict(resource, registrar)
            == Err::<(), Seq<char>>("unauthorized_domains"@),
{
    reveal_strlit("resource_domains_required");
    reveal_strlit("invalid_authorized_domains");
    reveal_strlit("unauthorized_domains");
    assert("resource_domains_required"@.len() == 25);
    assert("invalid_authorized_domains"@.len() == 26);
    assert("unauthorized_domains"@.len() == 20);
}

} // verus!
