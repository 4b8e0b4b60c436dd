use browser_wpe::blit::clear_target;
use browser_wpe::{
    BrowserFrame, BrowserGpuView, DmaBufShape, FrameOp, PackedFormat, RenderAction, RenderEvent,
};

/// What one render did, for a source with these frames to give.
#[derive(Debug, PartialEq, Eq)]
struct Rendered {
    drawn: Option<u32>,
    cleared: bool,
    redraw: bool,
    taken: usize,
}

fn render(view: &mut BrowserGpuView<(), u32>, frames: &mut Vec<u32>, ready: bool) -> Rendered {
    let mut rendered = Rendered {
        drawn: None,
        cleared: false,
        redraw: false,
        taken: 0,
    };
    let mut event = RenderEvent::Begin;
    let mut pumped = false;
    loop {
        event = match view.render(event) {
            RenderAction::Pump => {
                pumped = true;
                RenderEvent::Pumped
            }
            RenderAction::Resize => {
                assert!(pumped, "the engine is pumped before it is resized");
                RenderEvent::Resized
            }
            RenderAction::TakeFrame => {
                rendered.taken += 1;
                RenderEvent::Taken(if frames.is_empty() {
                    None
                } else {
                    Some(frames.remove(0))
                })
            }
            RenderAction::PollReadiness => {
                assert!(view.pending_frame().is_some());
                RenderEvent::Readiness(ready)
            }
            RenderAction::ClearTarget(pass) => {
                assert_eq!(pass, clear_target());
                rendered.cleared = true;
                RenderEvent::Cleared
            }
            RenderAction::Draw(frame) => {
                rendered.drawn = Some(frame);
                RenderEvent::Drawn
            }
            RenderAction::Finish { redraw } => {
                rendered.redraw = redraw;
                return rendered;
            }
        };
    }
}

fn view() -> BrowserGpuView<(), u32> {
    let mut view = BrowserGpuView::new(());
    assert!(view.gpu().is_none());
    view.setup(wgpu::TextureFormat::Rgba8Unorm);
    assert!(view.gpu().is_some());
    view
}

#[test]
fn without_a_frame_the_target_is_cleared_and_looked_at_again() {
    assert_eq!(
        render(&mut view(), &mut Vec::new(), true),
        Rendered {
            drawn: None,
            cleared: true,
            redraw: true,
            taken: 1
        }
    );
}

#[test]
fn an_unfinished_frame_stays_pending_and_leaves_the_target_alone() {
    let mut view = view();
    let mut frames = vec![1];
    assert_eq!(
        render(&mut view, &mut frames, false),
        Rendered {
            drawn: None,
            cleared: false,
            redraw: true,
            taken: 1
        }
    );
    assert_eq!(view.pending_frame(), Some(&1));
    assert_eq!(
        render(&mut view, &mut frames, true),
        Rendered {
            drawn: Some(1),
            cleared: false,
            redraw: false,
            taken: 1
        }
    );
    assert_eq!(view.pending_frame(), None);
}

#[test]
fn a_next_frame_asks_for_the_next_render() {
    let mut view = view();
    let mut frames = vec![1, 2, 3];
    let mut drawn = Vec::new();
    loop {
        let rendered = render(&mut view, &mut frames, true);
        drawn.extend(rendered.drawn);
        if !rendered.redraw {
            break;
        }
    }
    assert_eq!(drawn, [1, 2, 3]);
}

#[test]
fn a_view_without_a_frame_renders_before_it_is_set_up() {
    let mut view = BrowserGpuView::new(());
    assert!(render(&mut view, &mut Vec::new(), true).cleared);
    assert!(view.gpu().is_none());
}

#[test]
fn a_render_that_was_cut_short_is_begun_anew() {
    let mut view = view();
    view.render(RenderEvent::Begin);
    view.render(RenderEvent::Pumped);
    view.render(RenderEvent::Resized);
    view.render(RenderEvent::Taken(Some(1)));
    assert_eq!(
        render(&mut view, &mut vec![2], true),
        Rendered {
            drawn: Some(1),
            cleared: false,
            redraw: true,
            taken: 1
        }
    );
    assert_eq!(view.pending_frame(), Some(&2));
}

#[test]
fn a_view_keeps_its_source() {
    let view: BrowserGpuView<&str, u32> = BrowserGpuView::new("source");
    assert_eq!(*view.source(), "source");
    assert_eq!(view.pending_frame(), None);
}

#[test]
fn setting_a_view_up_again_forgets_the_source_texture() {
    let mut view = view();
    let target = wgpu::TextureFormat::Rgba8Unorm;
    let shape = DmaBufShape {
        width: 4,
        height: 2,
        format: PackedFormat::Bgra8,
    };
    let created = |ops: &[FrameOp<&[u8]>]| matches!(ops[0], FrameOp::CreateSource(_));
    assert!(created(&view.draw(target, BrowserFrame::DmaBuf(shape))));
    assert!(!created(&view.draw(target, BrowserFrame::DmaBuf(shape))));
    view.setup(target);
    assert!(created(&view.draw(target, BrowserFrame::DmaBuf(shape))));
}
