use vstd::prelude::*;

verus! {

/// One Vulkan object the app destroys when it shuts down.
#[derive(Clone, Copy, Debug, PartialEq, Eq, Structural)]
pub enum Teardown {
    Pipeline,
    PipelineLayout,
    /// The framebuffer at this position.
    Framebuffer(usize),
    RenderPass,
    /// The swapchain image view at this position.
    ImageView(usize),
    Swapchain,
    Device,
    Surface,
    Instance,
}

/// `child` is made from or by `parent`, so `parent` must outlive it.
pub open spec fn depends_on(child: Teardown, parent: Teardown) -> bool {
    match child {
        Teardown::Pipeline => parent == Teardown::PipelineLayout || parent == Teardown::RenderPass || parent == Teardown::Device,
        Teardown::PipelineLayout => parent == Teardown::Device,
        Teardown::Framebuffer(_) => parent == Teardown::RenderPass || parent is ImageView || parent == Teardown::Device,
        Teardown::RenderPass => parent == Teardown::Device,
        Teardown::ImageView(_) => parent == Teardown::Swapchain || parent == Teardown::Device,
        Teardown::Swapchain => parent == Teardown::Surface || parent == Teardown::Device,
        Teardown::Device => parent == Teardown::Instance,
        Teardown::Surface => parent == Teardown::Instance,
        Teardown::Instance => false,
    }
}

/// The order the app destroys its objects in: pipeline, its layout, the
/// framebuffers, the render pass, the image views, the swapchain, the device,
/// the surface, and the instance last.
pub open spec fn teardown_order(framebuffers: nat, image_views: nat) -> Seq<Teardown> {
    seq![Teardown::Pipeline, Teardown::PipelineLayout]
        + Seq::new(framebuffers, |i: int| Teardown::Framebuffer(i as usize))
        + seq![Teardown::RenderPass]
        + Seq::new(image_views, |i: int| Teardown::ImageView(i as usize))
        + seq![Teardown::Swapchain, Teardown::Device, Teardown::Surface, Teardown::Instance]
}

/// The steps of tearing down an app with the given numbers of framebuffers
/// and image views.
pub fn teardown(framebuffers: usize, image_views: usize) -> (steps: Vec<Teardown>)
    ensures
        steps@ == teardown_order(framebuffers as nat, image_views as nat),
        steps@.len() == framebuffers + image_views + 7,
        steps@.no_duplicates(),
        steps@.last() == Teardown::Instance,
        forall|k: usize| k < framebuffers <==> #[trigger] steps@.contains(Teardown::Framebuffer(k)),
        forall|k: usize| k < image_views <==> #[trigger] steps@.contains(Teardown::ImageView(k)),
        forall|i: int, j: int| 0 <= i < j < steps@.len() ==> !depends_on(#[trigger] steps@[j], #[trigger] steps@[i]),
{
    let mut steps = Vec::new();
    steps.push(Teardown::Pipeline);
    steps.push(Teardown::PipelineLayout);
    let mut i: usize = 0;
    while i < framebuffers
        invariant
            i <= framebuffers,
            steps@ == seq![Teardown::Pipeline, Teardown::PipelineLayout]
                + Seq::new(i as nat, |k: int| Teardown::Framebuffer(k as usize)),
        decreases framebuffers - i,
    {
        steps.push(Teardown::Framebuffer(i));
        i = i + 1;
        assert(steps@ =~= seq![Teardown::Pipeline, Teardown::PipelineLayout]
            + Seq::new(i as nat, |k: int| Teardown::Framebuffer(k as usize)));
    }
    steps.push(Teardown::RenderPass);
    let ghost head = steps@;
    let mut j: usize = 0;
    while j < image_views
        invariant
            j <= image_views,
            steps@ == head + Seq::new(j as nat, |k: int| Teardown::ImageView(k as usize)),
        decreases image_views - j,
    {
        steps.push(Teardown::ImageView(j));
        j = j + 1;
        assert(steps@ =~= head + Seq::new(j as nat, |k: int| Teardown::ImageView(k as usize)));
    }
    steps.push(Teardown::Swapchain);
    steps.push(Teardown::Device);
    steps.push(Teardown::Surface);
    steps.push(Teardown::Instance);
    assert(steps@ =~= teardown_order(framebuffers as nat, image_views as nat));
    proof {
        lemma_teardown_respects_ownership(framebuffers as nat, image_views as nat);
    }
    steps
}

/// Objects grouped by how late they may go.
pub open spec fn stage(object: Teardown) -> int {
    match object {
        Teardown::Pipeline => 0,
        Teardown::PipelineLayout => 1,
        Teardown::Framebuffer(_) => 2,
        Teardown::RenderPass => 3,
        Teardown::ImageView(_) => 4,
        Teardown::Swapchain => 5,
        Teardown::Device => 6,
        Teardown::Surface => 7,
        Teardown::Instance => 8,
    }
}

/// The stage of the object at position `k` of the teardown order.
pub open spec fn stage_at(framebuffers: nat, image_views: nat, k: int) -> int {
    if k == 0 {
        0
    } else if k == 1 {
        1
    } else if k < 2 + framebuffers {
        2
    } else if k == 2 + framebuffers {
        3
    } else if k < 3 + framebuffers + image_views {
        4
    } else {
        5 + (k - (3 + framebuffers + image_views))
    }
}

/// The object at position `k` of the teardown order, read off by position.
pub open spec fn teardown_at(framebuffers: nat, image_views: nat, k: int) -> Teardown {
    if k == 0 {
        Teardown::Pipeline
    } else if k == 1 {
        Teardown::PipelineLayout
    } else if k < 2 + framebuffers {
        Teardown::Framebuffer((k - 2) as usize)
    } else if k == 2 + framebuffers {
        Teardown::RenderPass
    } else if k < 3 + framebuffers + image_views {
        Teardown::ImageView((k - 3 - framebuffers) as usize)
    } else {
        seq![Teardown::Swapchain, Teardown::Device, Teardown::Surface, Teardown::Instance][k - 3 - framebuffers - image_views]
    }
}

proof fn lemma_teardown_at(framebuffers: nat, image_views: nat, k: int)
    requires
        0 <= k < teardown_order(framebuffers, image_views).len(),
    ensures
        teardown_order(framebuffers, image_views)[k] == teardown_at(framebuffers, image_views, k),
        stage(teardown_order(framebuffers, image_views)[k]) == stage_at(framebuffers, image_views, k),
{
    let a = seq![Teardown::Pipeline, Teardown::PipelineLayout];
    let b = Seq::new(framebuffers, |i: int| Teardown::Framebuffer(i as usize));
    let c = seq![Teardown::RenderPass];
    let d = Seq::new(image_views, |i: int| Teardown::ImageView(i as usize));
    let e = seq![Teardown::Swapchain, Teardown::Device, Teardown::Surface, Teardown::Instance];
    assert(teardown_order(framebuffers, image_views) == a + b + c + d + e);
    let ab = a + b;
    let abc = ab + c;
    let abcd = abc + d;
    if k < 2 {
        assert((abcd + e)[k] == a[k]);
    } else if k < 2 + framebuffers {
        assert((abcd + e)[k] == b[k - 2]);
    } else if k == 2 + framebuffers {
        assert((abcd + e)[k] == c[0]);
    } else if k < 3 + framebuffers + image_views {
        assert((abcd + e)[k] == d[k - 3 - framebuffers]);
    } else {
        assert((abcd + e)[k] == e[k - 3 - framebuffers - image_views]);
    }
}

/// Law: every object is destroyed before anything it was made from or by:
/// no object in the teardown order depends on one that comes before it,
/// each framebuffer and image view comes exactly once, the framebuffers are
/// exactly those at positions below `framebuffers` and the image views
/// exactly those below `image_views`, and the instance goes last.
pub proof fn lemma_teardown_respects_ownership(framebuffers: nat, image_views: nat)
    requires
        framebuffers <= usize::MAX,
        image_views <= usize::MAX,
    ensures
        forall|i: int, j: int| 0 <= i < j < teardown_order(framebuffers, image_views).len()
            ==> !depends_on(#[trigger] teardown_order(framebuffers, image_views)[j], #[trigger] teardown_order(framebuffers, image_views)[i]),
        teardown_order(framebuffers, image_views).no_duplicates(),
        teardown_order(framebuffers, image_views).last() == Teardown::Instance,
        teardown_order(framebuffers, image_views).len() == framebuffers + image_views + 7,
        forall|k: usize| k < framebuffers ==> #[trigger] teardown_order(framebuffers, image_views).contains(Teardown::Framebuffer(k)),
        forall|k: usize| k < image_views ==> #[trigger] teardown_order(framebuffers, image_views).contains(Teardown::ImageView(k)),
        forall|k: usize| #[trigger] teardown_order(framebuffers, image_views).contains(Teardown::Framebuffer(k)) ==> k < framebuffers,
        forall|k: usize| #[trigger] teardown_order(framebuffers, image_views).contains(Teardown::ImageView(k)) ==> k < image_views,
{
    let order = teardown_order(framebuffers, image_views);
    assert forall|k: usize| k < framebuffers implies #[trigger] order.contains(Teardown::Framebuffer(k)) by {
        lemma_teardown_at(framebuffers, image_views, k + 2);
    }
    assert forall|k: usize| k < image_views implies #[trigger] order.contains(Teardown::ImageView(k)) by {
        lemma_teardown_at(framebuffers, image_views, k + 3 + framebuffers);
    }
    assert forall|k: usize| #[trigger] order.contains(Teardown::Framebuffer(k)) implies k < framebuffers by {
        let i = choose|i: int| 0 <= i < order.len() && order[i] == Teardown::Framebuffer(k);
        lemma_teardown_at(framebuffers, image_views, i);
    }
    assert forall|k: usize| #[trigger] order.contains(Teardown::ImageView(k)) implies k < image_views by {
        let i = choose|i: int| 0 <= i < order.len() && order[i] == Teardown::ImageView(k);
        lemma_teardown_at(framebuffers, image_views, i);
    }
    assert forall|i: int, j: int| 0 <= i < j < order.len() implies
        !depends_on(#[trigger] order[j], #[trigger] order[i])
    by {
        lemma_teardown_at(framebuffers, image_views, i);
        lemma_teardown_at(framebuffers, image_views, j);
    }
    assert forall|i: int, j: int| 0 <= i < order.len() && 0 <= j < order.len() && i != j implies
        order[i] != order[j]
    by {
        lemma_teardown_at(framebuffers, image_views, i);
        lemma_teardown_at(framebuffers, image_views, j);
        if 2 <= i < 2 + framebuffers && 2 <= j < 2 + framebuffers {
            assert(((i - 2) as usize) != ((j - 2) as usize));
        }
        if 3 + framebuffers <= i < 3 + framebuffers + image_views && 3 + framebuffers <= j < 3 + framebuffers + image_views {
            assert(((i - 3 - framebuffers) as usize) != ((j - 3 - framebuffers) as usize));
        }
    }
    lemma_teardown_at(framebuffers, image_views, order.len() - 1);
    assert(order.last() == order[order.len() - 1]);
}

} // verus!
