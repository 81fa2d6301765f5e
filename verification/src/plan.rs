use vstd::prelude::*;
use crate::text::starts_with;

verus! {

/// A property given to an element as text (`set_property_from_str`).
pub struct PropertySetting {
    pub name: String,
    pub value: String,
}

impl View for PropertySetting {
    type V = (Seq<char>, Seq<char>);

    open spec fn view(&self) -> (Seq<char>, Seq<char>) {
        (self.name@, self.value@)
    }
}

/// One element of a pipeline: the factory that makes it, the name it gets,
/// the properties set on it right after it is made, and the message given
/// when the factory cannot make it.
pub struct ElementSpec {
    pub factory: String,
    pub name: String,
    pub properties: Vec<PropertySetting>,
    pub missing_message: String,
}

#[verifier::ext_equal]
pub struct ElementModel {
    pub factory: Seq<char>,
    pub name: Seq<char>,
    pub properties: Seq<(Seq<char>, Seq<char>)>,
    pub missing_message: Seq<char>,
}

impl View for ElementSpec {
    type V = ElementModel;

    open spec fn view(&self) -> ElementModel {
        ElementModel {
            factory: self.factory@,
            name: self.name@,
            properties: self.properties@.map_values(|p: PropertySetting| p@),
            missing_message: self.missing_message@,
        }
    }
}

/// Fixed caps of raw video: media type, pixel format and pixel aspect ratio
/// (numerator, denominator).
pub struct CapsSpec {
    pub media_type: String,
    pub format: String,
    pub pixel_aspect_ratio: (i32, i32),
}

#[verifier::ext_equal]
pub struct CapsModel {
    pub media_type: Seq<char>,
    pub format: Seq<char>,
    pub pixel_aspect_ratio: (i32, i32),
}

impl View for CapsSpec {
    type V = CapsModel;

    open spec fn view(&self) -> CapsModel {
        CapsModel {
            media_type: self.media_type@,
            format: self.format@,
            pixel_aspect_ratio: self.pixel_aspect_ratio,
        }
    }
}

/// Where a pad that appears at run time goes: a pad whose caps name starts
/// with `caps_prefix` is linked to the sink pad of element `target`.
pub struct PadRoute {
    pub caps_prefix: String,
    pub target: usize,
}

impl View for PadRoute {
    type V = (Seq<char>, usize);

    open spec fn view(&self) -> (Seq<char>, usize) {
        (self.caps_prefix@, self.target)
    }
}

/// The layout of a pipeline. Elements are referred to by their index in
/// `elements`, which is also the order in which they are made.
pub struct PipelinePlan {
    /// Name of the pipeline.
    pub name: String,
    pub elements: Vec<ElementSpec>,
    /// The order in which the elements are added to the pipeline.
    pub add_order: Vec<usize>,
    /// Static links, (source element, sink element).
    pub links: Vec<(usize, usize)>,
    /// Message given when a static link cannot be made.
    pub link_failure_message: String,
    /// The element handed back to the caller together with the pipeline.
    pub output: usize,
    /// Caps set on the output element, if any.
    pub output_caps: Option<CapsSpec>,
    /// The element whose pads appear at run time, if any.
    pub pad_source: Option<usize>,
    /// Where those pads go; the first route whose prefix matches is taken.
    pub pad_routes: Vec<PadRoute>,
}

#[verifier::ext_equal]
pub struct PipelineModel {
    pub name: Seq<char>,
    pub elements: Seq<ElementModel>,
    pub add_order: Seq<usize>,
    pub links: Seq<(usize, usize)>,
    pub link_failure_message: Seq<char>,
    pub output: usize,
    pub output_caps: Option<CapsModel>,
    pub pad_source: Option<usize>,
    pub pad_routes: Seq<(Seq<char>, usize)>,
}

impl View for PipelinePlan {
    type V = PipelineModel;

    open spec fn view(&self) -> PipelineModel {
        PipelineModel {
            name: self.name@,
            elements: self.elements@.map_values(|e: ElementSpec| e@),
            add_order: self.add_order@,
            links: self.links@,
            link_failure_message: self.link_failure_message@,
            output: self.output,
            output_caps: match self.output_caps {
                Some(c) => Some(c@),
                None => None,
            },
            pad_source: self.pad_source,
            pad_routes: self.pad_routes@.map_values(|r: PadRoute| r@),
        }
    }
}

/// The target of the first route whose prefix starts `pad_type`.
pub open spec fn first_route(routes: Seq<(Seq<char>, usize)>, pad_type: Seq<char>) -> Option<usize>
    decreases routes.len(),
{
    if routes.len() == 0 {
        None
    } else if routes[0].0.is_prefix_of(pad_type) {
        Some(routes[0].1)
    } else {
        first_route(routes.drop_first(), pad_type)
    }
}

/// No text starts with the prefixes of two different routes.
pub open spec fn routes_disjoint(routes: Seq<(Seq<char>, usize)>) -> bool {
    forall|k: int, l: int|
        0 <= k < routes.len() && 0 <= l < routes.len() && k != l
            ==> !(#[trigger] routes[k]).0.is_prefix_of((#[trigger] routes[l]).0)
}

impl PipelineModel {
    /// What the element names, indices and routes of a buildable pipeline
    /// satisfy: names are unique within the pipeline (a bin refuses a second
    /// child of the same name), every element is added exactly once, links
    /// join two different existing elements, and every pad has at most one
    /// place to go.
    pub open spec fn well_formed(self) -> bool {
        let n = self.elements.len();
        &&& forall|i: int, j: int|
            0 <= i < n && 0 <= j < n && i != j ==> (#[trigger] self.elements[i]).name
                != (#[trigger] self.elements[j]).name
        &&& self.add_order.len() == n
        &&& forall|k: int| 0 <= k < n ==> #[trigger] self.add_order[k] < n
        &&& forall|k: int, l: int|
            0 <= k < n && 0 <= l < n && k != l ==> #[trigger] self.add_order[k]
                != #[trigger] self.add_order[l]
        &&& forall|k: int|
            0 <= k < self.links.len() ==> {
                let (a, b) = #[trigger] self.links[k];
                a < n && b < n && a != b
            }
        &&& self.output < n
        &&& self.pad_routes.len() > 0 ==> self.pad_source is Some
        &&& (self.pad_source matches Some(s) ==> s < n)
        &&& forall|k: int|
            0 <= k < self.pad_routes.len() ==> {
                let t = (#[trigger] self.pad_routes[k]).1;
                t < n && self.pad_source != Some(t)
            }
        &&& routes_disjoint(self.pad_routes)
    }
}

/// Two prefixes of one text: the shorter starts the longer.
proof fn lemma_prefixes_nest(p: Seq<char>, q: Seq<char>, s: Seq<char>)
    requires
        p.is_prefix_of(s),
        q.is_prefix_of(s),
        p.len() <= q.len(),
    ensures
        p.is_prefix_of(q),
{
    assert forall|i: int| 0 <= i < p.len() implies p[i] == q.subrange(0, p.len() as int)[i] by {
        assert(p[i] == s.subrange(0, p.len() as int)[i]);
        assert(q[i] == s.subrange(0, q.len() as int)[i]);
    }
    assert(p =~= q.subrange(0, p.len() as int));
}

/// With disjoint routes, a pad whose type starts with the prefix of route `k`
/// goes to the target of route `k`; a pad that no prefix starts goes nowhere.
pub proof fn lemma_route_is_unique(routes: Seq<(Seq<char>, usize)>, pad_type: Seq<char>, k: int)
    requires
        routes_disjoint(routes),
        0 <= k < routes.len(),
        routes[k].0.is_prefix_of(pad_type),
    ensures
        first_route(routes, pad_type) == Some(routes[k].1),
    decreases routes.len(),
{
    if k > 0 {
        if routes[0].0.is_prefix_of(pad_type) {
            let p = routes[0].0;
            let q = routes[k].0;
            if p.len() <= q.len() {
                lemma_prefixes_nest(p, q, pad_type);
                assert(!routes[0].0.is_prefix_of(routes[k].0));
            } else {
                lemma_prefixes_nest(q, p, pad_type);
                assert(!routes[k].0.is_prefix_of(routes[0].0));
            }
        }
        let rest = routes.drop_first();
        assert forall|a: int, b: int|
            0 <= a < rest.len() && 0 <= b < rest.len() && a != b
                implies !(#[trigger] rest[a]).0.is_prefix_of((#[trigger] rest[b]).0) by {
            assert(rest[a] == routes[a + 1]);
            assert(rest[b] == routes[b + 1]);
        }
        assert(rest[k - 1] == routes[k]);
        lemma_route_is_unique(rest, pad_type, k - 1);
    }
}

/// A pad that no route's prefix starts goes nowhere.
pub proof fn lemma_unrouted_pad(routes: Seq<(Seq<char>, usize)>, pad_type: Seq<char>)
    requires
        forall|k: int| 0 <= k < routes.len() ==> !(#[trigger] routes[k]).0.is_prefix_of(pad_type),
    ensures
        first_route(routes, pad_type) is None,
    decreases routes.len(),
{
    if routes.len() > 0 {
        let rest = routes.drop_first();
        assert forall|k: int| 0 <= k < rest.len() implies !(#[trigger] rest[k]).0.is_prefix_of(
            pad_type,
        ) by {
            assert(rest[k] == routes[k + 1]);
        }
        lemma_unrouted_pad(rest, pad_type);
    }
}

/// What is done with a new pad of the pad source.
#[derive(Clone, Copy, Debug, PartialEq, Eq, Structural)]
pub enum PadAction {
    /// Link it to the sink pad of element `target`.
    Link { target: usize },
    /// Its destination `target` already has its sink pad linked: leave it.
    AlreadyLinked { target: usize },
    /// No route takes it: leave it.
    Ignore,
}

/// The action for a new pad routed to `target`, given whether the sink pad of
/// that target is already linked.
pub open spec fn pad_action_spec(target: Option<usize>, target_linked: bool) -> PadAction {
    match target {
        None => PadAction::Ignore,
        Some(t) => if target_linked {
            PadAction::AlreadyLinked { target: t }
        } else {
            PadAction::Link { target: t }
        },
    }
}

/// The elements whose sink pads get linked, in order, when the new pads
/// `events` arrive one after the other (each a caps name and whether the link
/// attempt succeeds), starting with the sink pads of `linked` already linked.
pub open spec fn links_made(
    routes: Seq<(Seq<char>, usize)>,
    linked: Set<usize>,
    events: Seq<(Seq<char>, bool)>,
) -> Seq<usize>
    decreases events.len(),
{
    if events.len() == 0 {
        seq![]
    } else {
        let (pad_type, link_ok) = events[0];
        let target = first_route(routes, pad_type);
        match pad_action_spec(target, target is Some && linked.contains(target->0)) {
            PadAction::Link { target: t } => if link_ok {
                seq![t] + links_made(routes, linked.insert(t), events.drop_first())
            } else {
                links_made(routes, linked, events.drop_first())
            },
            _ => links_made(routes, linked, events.drop_first()),
        }
    }
}

/// Over any sequence of new pads, the sink pad of an element is linked at
/// most once, and never when it was linked before the sequence began.
pub proof fn lemma_each_sink_linked_once(
    routes: Seq<(Seq<char>, usize)>,
    linked: Set<usize>,
    events: Seq<(Seq<char>, bool)>,
)
    ensures
        forall|i: int|
            0 <= i < links_made(routes, linked, events).len() ==> !linked.contains(
                #[trigger] links_made(routes, linked, events)[i],
            ),
        forall|i: int, j: int|
            0 <= i < j < links_made(routes, linked, events).len() ==> #[trigger] links_made(
                routes,
                linked,
                events,
            )[i] != #[trigger] links_made(routes, linked, events)[j],
    decreases events.len(),
{
    if events.len() > 0 {
        let (pad_type, link_ok) = events[0];
        let target = first_route(routes, pad_type);
        let rest = events.drop_first();
        match pad_action_spec(target, target is Some && linked.contains(target->0)) {
            PadAction::Link { target: t } => {
                if link_ok {
                    let inserted = linked.insert(t);
                    lemma_each_sink_linked_once(routes, inserted, rest);
                    let tail = links_made(routes, inserted, rest);
                    let all = links_made(routes, linked, events);
                    assert(all == seq![t] + tail);
                    assert forall|i: int| 0 <= i < all.len() implies !linked.contains(
                        #[trigger] all[i],
                    ) by {
                        if i > 0 {
                            assert(all[i] == tail[i - 1]);
                            assert(!inserted.contains(tail[i - 1]));
                        }
                    }
                    assert forall|i: int, j: int| 0 <= i < j < all.len() implies #[trigger] all[i]
                        != #[trigger] all[j] by {
                        assert(all[j] == tail[j - 1]);
                        assert(!inserted.contains(tail[j - 1]));
                        if i > 0 {
                            assert(all[i] == tail[i - 1]);
                        }
                    }
                } else {
                    lemma_each_sink_linked_once(routes, linked, rest);
                    assert(links_made(routes, linked, events) == links_made(routes, linked, rest));
                }
            },
            _ => {
                lemma_each_sink_linked_once(routes, linked, rest);
                assert(links_made(routes, linked, events) == links_made(routes, linked, rest));
            },
        }
    }
}

/// A new pad routed to an element whose sink pad is free gets linked to it
/// when the link succeeds; a pad no route takes links nothing.
pub proof fn lemma_routed_pad_links_free_sink(
    routes: Seq<(Seq<char>, usize)>,
    linked: Set<usize>,
    pad_type: Seq<char>,
    link_ok: bool,
)
    ensures
        first_route(routes, pad_type) is Some && !linked.contains(
            first_route(routes, pad_type)->0,
        ) && link_ok ==> links_made(routes, linked, seq![(pad_type, link_ok)]) == seq![
            first_route(routes, pad_type)->0,
        ],
        first_route(routes, pad_type) is None ==> links_made(
            routes,
            linked,
            seq![(pad_type, link_ok)],
        ).len() == 0,
{
    let events = seq![(pad_type, link_ok)];
    assert(events.drop_first() =~= Seq::<(Seq<char>, bool)>::empty());
    reveal_with_fuel(links_made, 2);
}

impl PipelinePlan {
    /// The element that a new pad of caps name `pad_type` is linked to:
    /// the target of the first route whose prefix starts `pad_type`, or
    /// `None` when no route takes it.
    pub fn route_pad(&self, pad_type: &str) -> (target: Option<usize>)
        ensures
            target == first_route(self@.pad_routes, pad_type@),
    {
        let ghost routes = self@.pad_routes;
        let mut i: usize = 0;
        assert(routes.skip(0) =~= routes);
        while i < self.pad_routes.len()
            invariant
                routes == self@.pad_routes,
                routes.len() == self.pad_routes@.len(),
                i <= routes.len(),
                first_route(routes, pad_type@) == first_route(routes.skip(i as int), pad_type@),
            decreases self.pad_routes.len() - i,
        {
            let route = &self.pad_routes[i];
            assert(routes[i as int] == route@);
            assert(routes.skip(i as int)[0] == routes[i as int]);
            if starts_with(pad_type, route.caps_prefix.as_str()) {
                return Some(route.target);
            }
            assert(routes.skip(i as int).drop_first() =~= routes.skip(i + 1));
            i = i + 1;
        }
        assert(routes.skip(i as int).len() == 0);
        None
    }

    /// What to do with a new pad of caps name `pad_type`, given whether the
    /// sink pad of the element it is routed to is already linked.
    pub fn pad_added_action(&self, pad_type: &str, target_linked: bool) -> (action: PadAction)
        ensures
            action == pad_action_spec(first_route(self@.pad_routes, pad_type@), target_linked),
            first_route(self@.pad_routes, pad_type@) is None ==> action == PadAction::Ignore,
            first_route(self@.pad_routes, pad_type@) matches Some(t) ==> action == (if target_linked {
                PadAction::AlreadyLinked { target: t }
            } else {
                PadAction::Link { target: t }
            }),
    {
        match self.route_pad(pad_type) {
            None => PadAction::Ignore,
            Some(t) => if target_linked {
                PadAction::AlreadyLinked { target: t }
            } else {
                PadAction::Link { target: t }
            },
        }
    }
}

} // verus!
