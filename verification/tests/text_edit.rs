use cshop_ui::shell::{run, Action, Effect, ShellState, Task};
use cshop_ui::input::TextStep;
use cshop_ui::text_edit::{text_step, LayoutMove, TextOutcome};

fn chars(s: &str) -> Vec<char> {
    s.chars().collect()
}

fn edit(text: &str, caret: usize) -> TextOutcome {
    TextOutcome::Edit { text: chars(text), caret }
}

#[test]
fn typing_goes_in_at_the_caret() {
    assert_eq!(text_step(&chars("helo"), 3, TextStep::Insert, &chars("l")), edit("hello", 4));
    assert_eq!(text_step(&chars("ab"), 9, TextStep::Insert, &chars("cd")), edit("abcd", 4));
    assert_eq!(text_step(&chars("ab"), 1, TextStep::Newline, &vec![]), edit("a\nb", 2));
    assert_eq!(text_step(&chars("é"), 0, TextStep::Insert, &chars("ü")), edit("üé", 1));
}

#[test]
fn backspace_and_delete_remove_one_character() {
    assert_eq!(text_step(&chars("hello"), 5, TextStep::Backspace, &vec![]), edit("hell", 4));
    assert_eq!(text_step(&chars("hello"), 0, TextStep::Backspace, &vec![]), TextOutcome::Nothing);
    assert_eq!(text_step(&chars("hello"), 0, TextStep::Delete, &vec![]), edit("ello", 0));
    assert_eq!(text_step(&chars("hello"), 5, TextStep::Delete, &vec![]), TextOutcome::Nothing);
    assert_eq!(text_step(&chars("hello"), 7, TextStep::Backspace, &vec![]), edit("hell", 4));
}

#[test]
fn arrows_move_the_caret_and_stop_at_the_ends() {
    assert_eq!(text_step(&chars("ab"), 1, TextStep::Left, &vec![]), TextOutcome::Caret(0));
    assert_eq!(text_step(&chars("ab"), 0, TextStep::Left, &vec![]), TextOutcome::Caret(0));
    assert_eq!(text_step(&chars("ab"), 1, TextStep::Right, &vec![]), TextOutcome::Caret(2));
    assert_eq!(text_step(&chars("ab"), 2, TextStep::Right, &vec![]), TextOutcome::Caret(2));
    assert_eq!(text_step(&chars("ab"), 1, TextStep::Up, &vec![]), TextOutcome::Layout(LayoutMove::Up));
    assert_eq!(text_step(&chars("ab"), 1, TextStep::End, &vec![]), TextOutcome::Layout(LayoutMove::End));
    assert_eq!(text_step(&chars("ab"), 1, TextStep::Commit, &vec![]), TextOutcome::Commit);
    assert_eq!(text_step(&chars("ab"), 1, TextStep::Cancel, &vec![]), TextOutcome::Cancel);
}

#[test]
fn a_typed_character_and_backspace_cancel_out() {
    let typed = text_step(&chars("cat"), 1, TextStep::Insert, &chars("x"));
    let TextOutcome::Edit { text, caret } = typed else { panic!("typing edits") };
    assert_eq!(text_step(&text, caret, TextStep::Backspace, &vec![]), edit("cat", 1));
}

#[test]
fn text_keys_go_to_the_window() {
    let s = ShellState {
        docs: 0,
        active: None,
        foreground: cshop_ui::dialogs::Rgba8 { r: 0, g: 0, b: 0, a: 255 },
        background: cshop_ui::dialogs::Rgba8 { r: 255, g: 255, b: 255, a: 255 },
        brush_rung: 0,
        show_panels: true,
        show_rulers: false,
        show_guides: false,
        show_grid: false,
        snap: false,
        quick_mask: false,
        untitled_count: 0,
        pending_new: None,
        tool: cshop_ui::canvas::Tool::Text,
        last_filter: false,
        quit: false,
    };
    let (_, effects) = run(s, None, Action::<String>::TextInput { step: TextStep::Backspace, text: vec![] });
    assert_eq!(effects, vec![Effect::Forward(Task::TextInput { step: TextStep::Backspace, text: vec![] })]);
}
