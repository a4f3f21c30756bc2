# ripasso_cursive

The terminal front end of the ripasso password manager, split in two:

- `src/` is a library verified with Verus. It holds what the front end
  computes: the rows of the password list (`label`, with the `%Y-%m-%d`
  date column in `date`), the file that a new password is stored in
  (`entry_path`), the named text fields of a dialog and the request of the
  "add a password" dialog (`inputs`), what each command does to the screen
  once the store, git or the clipboard has answered (`command`), and the
  command line's help flag (`wants_help`).
- `app/` is the program: the cursive screens, the calls into the password
  store, git and the clipboard, which hand their outcomes to the library
  and carry out the screen updates it returns.

`tests/` runs the library on concrete values; the date column is checked
against chrono's own formatter.
