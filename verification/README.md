# miti_tracefront

Front ends for a traffic trace server. `src/` is the verified library
(Verus): the records exchanged with the server, what the windows show of
them (printed lines, direction arrows, pannel labels), the state of an open
connection, and the "Pannels" menu that adds and removes the link and rate
pannels. `app/` draws the windows with eframe/egui, talks to the server over
`ewebsock`, and turns JSON into records with serde.
