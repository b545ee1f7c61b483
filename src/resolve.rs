use vstd::prelude::*;
use crate::membership::names_of;
use crate::storage_path::{boot_set_path_error, image_id_of_path, parse_boot_set_path};

verus! {

/// One layer of a configuration: a commit of a source repository.
pub struct Layer {
    pub name: String,
    pub clone_url: String,
    pub commit: Option<String>,
    pub author: String,
    pub timestamp: String,
}

/// A configuration record of the configuration registry.
pub struct Configuration {
    pub name: String,
    pub last_updated: String,
    pub layers: Vec<Layer>,
}

/// An image record of the image registry, labelled with the name of the
/// configuration that built it.
pub struct Image {
    pub id: String,
    pub name: String,
}

/// One boot set of a deployment template, with the storage path of its image.
pub struct BootSet {
    pub name: String,
    pub path: Option<String>,
}

/// A deployment template: the configuration it refers to and its boot sets.
pub struct DeploymentTemplate {
    pub name: String,
    pub configuration: Option<String>,
    pub boot_sets: Vec<BootSet>,
}

/// A named item that a run needs is absent.
pub struct NotFoundError {
    pub name: String,
}

/// The configuration resolver's answer on a registry query for `name`: the
/// first record returned, or not found when there is none.
pub fn resolve_configuration(records: Vec<Configuration>, name: &String) -> (r: Result<Configuration, NotFoundError>)
    ensures
        r is Err <==> records@.len() == 0,
        r is Ok ==> r->Ok_0 == records@[0],
        r is Err ==> r->Err_0.name@ == name@,
{
    let mut records = records;
    if records.len() == 0 {
        Err(NotFoundError { name: name.clone() })
    } else {
        Ok(records.remove(0))
    }
}

/// Direct lookup: the id of the first image labelled with the configuration
/// named `configuration_name`.
pub fn first_image_id(images: &Vec<Image>, configuration_name: &String) -> (r: Option<String>)
    ensures
        r is None <==> forall|k: int| 0 <= k < images@.len() ==> images@[k].name@ != configuration_name@,
        r is Some ==> exists|k: int| 0 <= k < images@.len() && images@[k].name@ == configuration_name@
            && r->0@ == images@[k].id@
            && forall|j: int| 0 <= j < k ==> images@[j].name@ != configuration_name@,
{
    let mut i: usize = 0;
    while i < images.len()
        invariant
            i <= images.len(),
            forall|j: int| 0 <= j < i ==> images@[j].name@ != configuration_name@,
        decreases images.len() - i,
    {
        if images[i].name == *configuration_name {
            return Some(images[i].id.clone());
        }
        i = i + 1;
    }
    None
}

/// Image ids that the boot sets name, in order, leaving out paths that are
/// absent or are not the path of artifact `artifact` of an image.
pub open spec fn boot_set_candidates(sets: Seq<BootSet>, artifact: Seq<char>) -> Seq<Seq<char>>
    decreases sets.len(),
{
    if sets.len() == 0 {
        Seq::empty()
    } else {
        let rest = boot_set_candidates(sets.drop_last(), artifact);
        let last = sets.last();
        if last.path is Some && boot_set_path_error(last.path->0@, artifact) is None {
            rest.push(image_id_of_path(last.path->0@)->0)
        } else {
            rest
        }
    }
}

/// `t` refers to the configuration named `cfg`.
pub open spec fn refers_to(t: DeploymentTemplate, cfg: Seq<char>) -> bool {
    t.configuration is Some && t.configuration->0@ == cfg
}

/// Image-id candidates for configuration `cfg`: those of the templates that
/// refer to it, in template order, from boot-set paths of artifact `artifact`.
pub open spec fn template_candidates(ts: Seq<DeploymentTemplate>, cfg: Seq<char>, artifact: Seq<char>) -> Seq<Seq<char>>
    decreases ts.len(),
{
    if ts.len() == 0 {
        Seq::empty()
    } else {
        let rest = template_candidates(ts.drop_last(), cfg, artifact);
        if refers_to(ts.last(), cfg) {
            rest + boot_set_candidates(ts.last().boot_sets@, artifact)
        } else {
            rest
        }
    }
}

fn push_boot_set_candidates(sets: &Vec<BootSet>, artifact: &String, out: &mut Vec<String>)
    ensures
        names_of(final(out)@) == names_of(old(out)@) + boot_set_candidates(sets@, artifact@),
{
    let ghost start = names_of(out@);
    let mut i: usize = 0;
    while i < sets.len()
        invariant
            i <= sets.len(),
            names_of(out@) == start + boot_set_candidates(sets@.take(i as int), artifact@),
        decreases sets.len() - i,
    {
        proof {
            assert(sets@.take(i as int + 1).drop_last() =~= sets@.take(i as int));
        }
        let set = &sets[i];
        match &set.path {
            Some(path) => match parse_boot_set_path(path.as_str(), artifact.as_str()) {
                Ok(id) => {
                    let ghost before = out@;
                    out.push(id);
                    assert(names_of(out@) =~= names_of(before).push(id@));
                    assert(names_of(out@) =~= start + boot_set_candidates(sets@.take(i as int + 1), artifact@));
                },
                Err(_) => {
                    assert(names_of(out@) =~= start + boot_set_candidates(sets@.take(i as int + 1), artifact@));
                },
            },
            None => {
                assert(names_of(out@) =~= start + boot_set_candidates(sets@.take(i as int + 1), artifact@));
            },
        }
        i = i + 1;
    }
    assert(sets@.take(sets@.len() as int) =~= sets@);
}

/// Image-id candidates that the deployment templates give for the
/// configuration named `configuration_name`, from boot-set paths
/// `s3://boot-images/<id>/<artifact>`.
pub fn image_id_candidates(templates: &Vec<DeploymentTemplate>, configuration_name: &String, artifact: &String) -> (r: Vec<String>)
    ensures
        names_of(r@) == template_candidates(templates@, configuration_name@, artifact@),
{
    let mut out: Vec<String> = Vec::new();
    let mut i: usize = 0;
    while i < templates.len()
        invariant
            i <= templates.len(),
            names_of(out@) == template_candidates(templates@.take(i as int), configuration_name@, artifact@),
        decreases templates.len() - i,
    {
        proof {
            assert(templates@.take(i as int + 1).drop_last() =~= templates@.take(i as int));
        }
        let t = &templates[i];
        let refers = match &t.configuration {
            Some(c) => *c == *configuration_name,
            None => false,
        };
        if refers {
            push_boot_set_candidates(&t.boot_sets, artifact, &mut out);
        }
        i = i + 1;
    }
    assert(templates@.take(templates@.len() as int) =~= templates@);
    out
}

/// Index of the first candidate that the image registry confirmed, among
/// those probed so far.
pub open spec fn first_confirmed(confirmed: Seq<bool>) -> Option<int>
    decreases confirmed.len(),
{
    if confirmed.len() == 0 {
        None
    } else {
        match first_confirmed(confirmed.drop_last()) {
            Some(k) => Some(k),
            None => if confirmed.last() { Some(confirmed.len() - 1) } else { None },
        }
    }
}

/// The image id that resolution yields: the direct lookup's when it found one,
/// else the first candidate whose probe confirmed it.
pub open spec fn resolved_image(direct: Option<Seq<char>>, candidates: Seq<Seq<char>>, confirmed: Seq<bool>) -> Option<Seq<char>> {
    if direct is Some {
        direct
    } else {
        match first_confirmed(confirmed) {
            Some(k) => if k < candidates.len() { Some(candidates[k]) } else { None },
            None => None,
        }
    }
}

proof fn lemma_first_confirmed_prefix(c: Seq<bool>, j: int)
    requires
        0 <= j <= c.len(),
        first_confirmed(c.take(j)) is Some,
    ensures
        first_confirmed(c) == first_confirmed(c.take(j)),
    decreases c.len(),
{
    if j == c.len() {
        assert(c.take(j) =~= c);
    } else {
        assert(c.drop_last().take(j) =~= c.take(j));
        lemma_first_confirmed_prefix(c.drop_last(), j);
    }
}

/// The image id that deployment templates give for a configuration: the
/// first candidate for which `confirmed` holds the image registry's yes, when
/// it is a candidate at all. `confirmed[i]` answers for candidate `i`, in the
/// order of `image_id_candidates`; the answers may stop after the first yes.
pub fn get_image_id_from_bos_sessiontemplate_list(
    templates: &Vec<DeploymentTemplate>,
    configuration_name: &String,
    artifact: &String,
    confirmed: &Vec<bool>,
) -> (r: Option<String>)
    ensures
        r is Some <==> resolved_image(None, template_candidates(templates@, configuration_name@, artifact@), confirmed@) is Some,
        r is Some ==> r->0@ == resolved_image(None, template_candidates(templates@, configuration_name@, artifact@), confirmed@)->0,
{
    let candidates = image_id_candidates(templates, configuration_name, artifact);
    let mut i: usize = 0;
    while i < confirmed.len()
        invariant
            i <= confirmed.len(),
            first_confirmed(confirmed@.take(i as int)) is None,
            names_of(candidates@) == template_candidates(templates@, configuration_name@, artifact@),
        decreases confirmed.len() - i,
    {
        assert(confirmed@.take(i as int + 1).drop_last() =~= confirmed@.take(i as int));
        if confirmed[i] {
            proof {
                lemma_first_confirmed_prefix(confirmed@, i as int + 1);
            }
            if i < candidates.len() {
                assert(names_of(candidates@)[i as int] == candidates@[i as int]@);
                return Some(candidates[i].clone());
            } else {
                return None;
            }
        }
        i = i + 1;
    }
    assert(confirmed@.take(confirmed@.len() as int) =~= confirmed@);
    None
}

/// What image resolution asks for next.
pub enum ImageLookup {
    /// Probe the image registry for the candidate at this index.
    Probe(usize),
    /// Resolution ends with this image id.
    Resolved(String),
    /// No candidate resolves.
    Unresolved,
}

/// First step of image resolution, after the direct lookup.
pub fn start_image_lookup(direct: Option<String>, candidates: &Vec<String>) -> (r: ImageLookup)
    ensures
        direct is Some ==> r is Resolved && r->Resolved_0@ == direct->0@,
        direct is None && candidates@.len() > 0 ==> r == ImageLookup::Probe(0),
        direct is None && candidates@.len() == 0 ==> r is Unresolved,
{
    match direct {
        Some(id) => ImageLookup::Resolved(id),
        None => if candidates.len() > 0 { ImageLookup::Probe(0) } else { ImageLookup::Unresolved },
    }
}

/// Next step of image resolution, once the probe of candidate `index` has
/// answered whether that image exists.
pub fn next_image_lookup(candidates: &Vec<String>, index: usize, exists: bool) -> (r: ImageLookup)
    requires
        index < candidates@.len(),
    ensures
        exists ==> r is Resolved && r->Resolved_0@ == candidates@[index as int]@,
        !exists && index + 1 < candidates@.len() ==> r == ImageLookup::Probe((index + 1) as usize),
        !exists && index + 1 == candidates@.len() ==> r is Unresolved,
{
    if exists {
        ImageLookup::Resolved(candidates[index].clone())
    } else if index < candidates.len() - 1 {
        ImageLookup::Probe(index + 1)
    } else {
        ImageLookup::Unresolved
    }
}

proof fn lemma_first_confirmed_holds(c: Seq<bool>)
    ensures
        first_confirmed(c) is Some ==> 0 <= first_confirmed(c)->0 < c.len() && c[first_confirmed(c)->0],
    decreases c.len(),
{
    if c.len() > 0 {
        lemma_first_confirmed_holds(c.drop_last());
    }
}

/// Outcome of the probe loop that starts at candidate `i`: each probe that
/// answers no moves on to the next candidate, the first yes resolves.
pub open spec fn probe_loop_from(candidates: Seq<Seq<char>>, answers: Seq<bool>, i: int) -> Option<Seq<char>>
    decreases candidates.len() - i,
{
    if i < 0 || i >= candidates.len() || i >= answers.len() {
        None
    } else if answers[i] {
        Some(candidates[i])
    } else {
        probe_loop_from(candidates, answers, i + 1)
    }
}

proof fn lemma_probe_loop_from(candidates: Seq<Seq<char>>, answers: Seq<bool>, i: int)
    requires
        0 <= i <= candidates.len(),
        answers.len() == candidates.len(),
        first_confirmed(answers.take(i)) is None,
    ensures
        probe_loop_from(candidates, answers, i) == resolved_image(None, candidates, answers),
    decreases candidates.len() - i,
{
    if i == candidates.len() {
        assert(answers.take(i) =~= answers);
    } else {
        assert(answers.take(i + 1).drop_last() =~= answers.take(i));
        if answers[i] {
            lemma_first_confirmed_prefix(answers, i + 1);
        } else {
            lemma_probe_loop_from(candidates, answers, i + 1);
        }
    }
}

/// Image resolution is deterministic: the probe loop driven by
/// `start_image_lookup` and `next_image_lookup`, answered for each candidate
/// by `answers`, ends in the image that the batch resolution gives for the
/// same direct result, candidates and answers. An id resolved from the
/// templates is a candidate that the image registry confirmed.
pub proof fn lemma_resolution_deterministic(direct: Option<Seq<char>>, candidates: Seq<Seq<char>>, answers: Seq<bool>)
    requires
        answers.len() == candidates.len(),
    ensures
        direct is None ==> probe_loop_from(candidates, answers, 0) == resolved_image(direct, candidates, answers),
        direct is None && resolved_image(direct, candidates, answers) is Some ==> exists|k: int|
            0 <= k < candidates.len() && answers[k] && candidates[k] == resolved_image(direct, candidates, answers)->0,
{
    assert(answers.take(0) =~= Seq::<bool>::empty());
    lemma_probe_loop_from(candidates, answers, 0);
    lemma_first_confirmed_holds(answers);
}

} // verus!
