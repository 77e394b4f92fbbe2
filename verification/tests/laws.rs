use iris::colors::hex_to_rgb;
use iris::setup::{HookPlan, Setup};
use iris::{replace_block, FsEntry, FsNode, FsPath, FsSnapshot, GeneratorFilter, StateFilter};

#[test]
fn each_generator_falls_under_exactly_one_filter() {
    for enabled in [false, true] {
        for installed in [false, true] {
            let states = [StateFilter::Active, StateFilter::Ready, StateFilter::Broken, StateFilter::Missing];
            assert_eq!(states.iter().filter(|f| f.matches(enabled, installed)).count(), 1);
            let gens = [GeneratorFilter::Active, GeneratorFilter::Ready, GeneratorFilter::Broken, GeneratorFilter::Missing];
            assert_eq!(gens.iter().filter(|f| f.matches(enabled, installed)).count(), 1);
        }
    }
}

#[test]
fn an_injected_block_carries_its_markers() {
    for content in ["", "a = 1", "x\n# [iris:begin:fzf]\nold\n# [iris:end:fzf]\ny", "# [iris:end:fzf]\n"] {
        let out = replace_block(content, "fzf", "new");
        assert!(out.contains("# [iris:begin:fzf]"));
        assert!(out.contains("# [iris:end:fzf]"));
    }
}

#[test]
fn the_shell_hook_is_installed_once() {
    let home = FsPath::new("/home/u");
    let before = "export A=1\n".to_string();
    let fs = FsSnapshot {
        entries: vec![FsEntry { path: FsPath::new("/home/u/.zshrc"), node: FsNode::File(before.clone()) }],
    };
    let text = match Setup::setup_zsh_hook(&home, &fs) {
        Ok(HookPlan::Append { text, .. }) => text,
        other => panic!("unexpected {:?}", other),
    };
    let after = FsSnapshot {
        entries: vec![FsEntry { path: FsPath::new("/home/u/.zshrc"), node: FsNode::File(before + &text) }],
    };
    assert_eq!(Setup::setup_zsh_hook(&home, &after), Ok(HookPlan::AlreadyPresent));
}

#[test]
fn a_written_color_reads_back() {
    for (r, g, b) in [(0u8, 0u8, 0u8), (255, 255, 255), (18, 52, 86), (171, 205, 239), (7, 128, 250)] {
        let code = format!("#{:02x}{:02X}{:02x}", r, g, b);
        assert_eq!(hex_to_rgb(&code), (r, g, b));
        assert_eq!(hex_to_rgb(&code[1..]), (r, g, b));
        assert_eq!(hex_to_rgb(&format!("##{}", &code[1..])), (r, g, b));
    }
}

#[test]
fn writing_a_block_twice_equals_writing_it_once() {
    for content in ["", "a = 1\n\n\n", "x\n# [iris:begin:fzf]\nold\n# [iris:end:fzf]\ny", "# [iris:begin:fzf]\n# [iris:end:fzf]"] {
        let once = replace_block(content, "fzf", "  new\nlines  ");
        assert_eq!(replace_block(&once, "fzf", "  new\nlines  "), once);
    }
}

#[test]
fn writing_a_block_twice_equals_writing_it_once_for_a_marker_with_a_line_feed() {
    for content in ["", "a = 1", "x\n# [iris:begin:a\nb]\nold\n# [iris:end:a\nb]\ny"] {
        let once = replace_block(content, "a\nb", "new");
        assert_eq!(replace_block(&once, "a\nb", "new"), once);
    }
}
