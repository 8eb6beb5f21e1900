use codex_switcher::processes::{add_pids_from_ps, pids_from_pgrep, pids_from_tasklist};

#[test]
fn pgrep_output_lists_pids_except_our_own() {
    let out = "123\n 456 \nnot-a-pid\n789\n";
    assert_eq!(pids_from_pgrep(out, 456), vec![123, 789]);
    assert_eq!(pids_from_pgrep("", 1), Vec::<u32>::new());
}

#[test]
fn ps_output_finds_cli_lines_once() {
    let out = "\
USER PID %CPU %MEM VSZ RSS TTY STAT START TIME COMMAND
me 100 0.0 0.1 1 1 ? S 10:00 0:00 codex
me 101 0.0 0.1 1 1 ? S 10:00 0:00 /usr/local/bin/codex --help
me 102 0.0 0.1 1 1 ? S 10:00 0:00 /Applications/Codex Switcher.app/codex-switcher
me 103 0.0 0.1 1 1 ? S 10:00 0:00 grep codex
me 104 0.0 0.1 1 1 ? S 10:00 0:00 vim notes-about-codexes.txt
me 105 0.0 0.1 1 1 ? S 10:00 0:00 /opt/CODEX run
me 106 0.0 0.1 1 1 ? S 10:00 0:00 codex
";
    let mut pids = vec![100];
    add_pids_from_ps(&mut pids, out, 106);
    assert_eq!(pids, vec![100, 101, 105]);
}

#[test]
fn tasklist_output_reads_the_second_field() {
    let out = "\"codex.exe\",\"4242\",\"Console\",\"1\",\"10,000 K\"\r\n\"codex.exe\",\"77\",\"Console\"\r\nINFO: none\r\n";
    assert_eq!(pids_from_tasklist(out, 77), vec![4242]);
}
