# website

A small personal web site: a home page, project pages, a fixed set of static
files, short links that redirect, and a file area where a file may be locked
by a password, with admin handlers to upload and remove files and links.

- `src/` is the verified library (Verus): which page or file each request is
  answered with, the admin upload format and its parser, the admin
  password check, and the step functions of the admin handlers that
  alternate database and disk work with decisions.
- `app/` is the server: actix-web routing, the sqlite tables (rusqlite),
  handlebars templates, and file I/O. It hands the library plain values and
  acts on what the library decides.
- `tests/` run the library on concrete requests.
