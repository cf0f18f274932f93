use rand::thread_rng;
use scrolling_background::frame::{scroll_background, scroll_line};
use scrolling_background::themes::{load_theme, Theme};

fn check_line_shape(line: &[char], pool: &[char], width: usize) {
    assert!(line.len() <= width + 2, "line of {} exceeds {} + 2", line.len(), width);
    let pad = line.iter().take_while(|c| **c == ' ').count();
    let themed = &line[pad..];
    assert!(pad < width, "{} leading spaces at width {}", pad, width);
    assert!(themed.len() <= 3, "{} themed characters", themed.len());
    for c in themed {
        assert!(pool.contains(c), "character {:?} outside the pool", c);
    }
}

#[test]
fn scroll_line_respects_width_and_pool() {
    let pool = load_theme(Theme::Numbers);
    let mut rng = thread_rng();
    for width in [1usize, 2, 5, 80] {
        for _ in 0..200 {
            let line = scroll_line(&mut rng, &pool, width);
            check_line_shape(&line, &pool, width);
        }
    }
}

#[test]
fn scroll_line_width_one_is_themed_only() {
    let pool = load_theme(Theme::Letters);
    let mut rng = thread_rng();
    for _ in 0..100 {
        let line = scroll_line(&mut rng, &pool, 1);
        assert!(line.len() <= 3);
        for c in &line {
            assert!(pool.contains(c));
        }
    }
}

#[test]
fn scroll_line_draws_from_single_character_pool() {
    let pool = vec!['x'];
    let mut rng = thread_rng();
    for _ in 0..100 {
        let line = scroll_line(&mut rng, &pool, 10);
        let pad = line.iter().take_while(|c| **c == ' ').count();
        for c in &line[pad..] {
            assert_eq!(*c, 'x');
        }
    }
}

#[test]
fn scroll_line_eventually_emits_themed_characters() {
    let pool = load_theme(Theme::Numbers);
    let mut rng = thread_rng();
    let mut themed_seen = 0usize;
    for _ in 0..500 {
        let line = scroll_line(&mut rng, &pool, 4);
        let pad = line.iter().take_while(|c| **c == ' ').count();
        themed_seen += line.len() - pad;
    }
    assert!(themed_seen > 0, "no themed character in 500 draws");
}

#[test]
fn scroll_background_respects_width_and_pool() {
    let pool = load_theme(Theme::Numbers);
    for _ in 0..200 {
        let line = scroll_background(&pool, 40);
        check_line_shape(&line, &pool, 40);
    }
}

#[test]
fn scroll_line_with_space_in_pool_stays_bounded() {
    // The "all" pool holds the space character itself, so the pad cannot be
    // told apart from a drawn space; the bounds still hold.
    let pool = load_theme(Theme::All);
    let mut rng = thread_rng();
    for _ in 0..200 {
        let line = scroll_line(&mut rng, &pool, 40);
        assert!(line.len() <= 42);
        assert!(line.iter().filter(|c| **c != ' ').count() <= 3);
        for c in line.iter().filter(|c| **c != ' ') {
            assert!(pool.contains(c));
        }
    }
}
